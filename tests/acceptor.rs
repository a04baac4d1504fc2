use quinn_conn::acceptor::{AcceptorAction, AcceptorEvent, AcceptorState, BoundAddr, QuinnAcceptor};
use quinn_conn::error::ListenError;

fn ready(addr: BoundAddr) -> QuinnAcceptor {
    let mut a = QuinnAcceptor::new();
    assert!(matches!(a.step::<&str, u64>(AcceptorEvent::ConfigArrived("one")), AcceptorAction::Bind("one")));
    assert_eq!(a.state, AcceptorState::Binding);
    assert!(a.local_addr().is_none());
    assert!(matches!(a.step::<&str, u64>(AcceptorEvent::Bound(addr)), AcceptorAction::Wait));
    a
}

#[test]
fn updates_keep_accepted_order_and_addr() {
    let addr = BoundAddr { ip: 1, port: 443 };
    let mut a = ready(addr);
    let mut out = Vec::new();
    let mut n = 0u64;
    for c in 0..6u64 {
        if c % 2 == 0 {
            match a.step::<&str, u64>(AcceptorEvent::ConfigArrived("next")) {
                AcceptorAction::Reconfigure("next") => n += 1,
                _ => panic!("expected a reconfiguration"),
            }
        }
        if let AcceptorAction::Yield(x) = a.step::<&str, u64>(AcceptorEvent::Accepted(c)) {
            out.push(x);
        }
        assert_eq!(a.local_addr(), Some(addr));
    }
    assert_eq!(n, 3);
    assert_eq!(out, vec![0, 1, 2, 3, 4, 5]);
    assert_eq!(a.state, AcceptorState::Ready { addr, generation: 4 });
}

#[test]
fn rejected_update_keeps_endpoint() {
    let addr = BoundAddr { ip: 2, port: 8443 };
    let mut a = ready(addr);
    assert!(matches!(a.step::<&str, u64>(AcceptorEvent::ConfigRejected), AcceptorAction::Report(ListenError::Config)));
    assert!(a.is_ready());
    assert_eq!(a.local_addr(), Some(addr));
}

#[test]
fn rejected_first_config_fails_fast() {
    let mut a = QuinnAcceptor::new();
    assert!(matches!(a.step::<&str, u64>(AcceptorEvent::ConfigRejected), AcceptorAction::Report(ListenError::Config)));
    assert_eq!(a.state, AcceptorState::Closed);
}

#[test]
fn bind_failure_is_bind_error() {
    let mut a = QuinnAcceptor::new();
    a.step::<&str, u64>(AcceptorEvent::ConfigArrived("one"));
    assert!(matches!(a.step::<&str, u64>(AcceptorEvent::BindFailed), AcceptorAction::Report(ListenError::Bind)));
    assert_eq!(a.state, AcceptorState::Closed);
}

#[test]
fn transport_failure_closes() {
    let mut a = ready(BoundAddr { ip: 3, port: 1 });
    assert!(matches!(a.step::<&str, u64>(AcceptorEvent::TransportFailed), AcceptorAction::Report(ListenError::Transport)));
    assert_eq!(a.state, AcceptorState::Closed);
    assert!(matches!(a.step::<&str, u64>(AcceptorEvent::Accepted(9)), AcceptorAction::Wait));
}

#[test]
fn accept_before_config_is_ignored() {
    let mut a = QuinnAcceptor::new();
    assert!(matches!(a.step::<&str, u64>(AcceptorEvent::Accepted(1)), AcceptorAction::Wait));
    assert_eq!(a.state, AcceptorState::NoConfig);
}
