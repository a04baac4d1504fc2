use quinn_conn::acceptor::{AcceptorAction, AcceptorState, BoundAddr, QuinnAcceptor, AcceptorEvent};
use quinn_conn::config_stream::{poll_event, ConfigPoll, StaticConfigStream};

#[test]
fn static_stream_yields_once_then_stalls() {
    let mut s = StaticConfigStream::new(5u32);
    assert!(matches!(s.poll_next(), ConfigPoll::Ready(5)));
    for _ in 0..10 {
        assert!(matches!(s.poll_next(), ConfigPoll::Pending));
    }
}

#[test]
fn pending_poll_gives_no_event() {
    let e = poll_event::<u32, u64>(ConfigPoll::Pending);
    assert!(e.is_none());
    let e = poll_event::<u32, u64>(ConfigPoll::Ended);
    assert!(matches!(e, Some(AcceptorEvent::ConfigStreamEnded)));
}

#[test]
fn stalled_stream_never_closes_acceptor() {
    let addr = BoundAddr { ip: 0x7f00_0001, port: 4433 };
    let mut a = QuinnAcceptor::new();
    let mut s = StaticConfigStream::new(1u32);
    let r = a.on_config_poll::<u32, u64>(s.poll_next());
    assert!(matches!(r, Some(AcceptorAction::Bind(1))));
    assert!(matches!(a.step::<u32, u64>(AcceptorEvent::Bound(addr)), AcceptorAction::Wait));
    for _ in 0..5 {
        assert!(a.on_config_poll::<u32, u64>(s.poll_next()).is_none());
        assert!(a.is_ready());
    }
    assert!(matches!(a.step::<u32, u64>(AcceptorEvent::ConfigStreamEnded), AcceptorAction::Wait));
    assert_eq!(a.state, AcceptorState::Ready { addr, generation: 1 });
}
