use vstd::prelude::*;

use crate::acceptor::{is_live_event, lemma_quiet_stream_keeps_ready, run_state, AcceptorEvent, AcceptorState};

verus! {

/// One poll of a configuration stream.
pub enum ConfigPoll<T> {
    /// The next configuration.
    Ready(T),
    /// Nothing yet; the stream may still yield.
    Pending,
    /// The stream ended; it yields nothing more.
    Ended,
}

/// The event, if any, that a poll of the configuration stream gives the
/// acceptor. A pending stream gives none.
pub open spec fn poll_event_spec<T, C>(p: ConfigPoll<T>) -> Option<AcceptorEvent<T, C>> {
    match p {
        ConfigPoll::Ready(t) => Some(AcceptorEvent::ConfigArrived(t)),
        ConfigPoll::Pending => None,
        ConfigPoll::Ended => Some(AcceptorEvent::ConfigStreamEnded),
    }
}

pub fn poll_event<T, C>(p: ConfigPoll<T>) -> (r: Option<AcceptorEvent<T, C>>)
    ensures
        r == poll_event_spec::<T, C>(p),
{
    match p {
        ConfigPoll::Ready(t) => Some(AcceptorEvent::ConfigArrived(t)),
        ConfigPoll::Pending => None,
        ConfigPoll::Ended => Some(AcceptorEvent::ConfigStreamEnded),
    }
}

/// A single static configuration as a stream: it yields the value once, and
/// then stays pending for ever, without ending.
pub struct StaticConfigStream<T> {
    value: Option<T>,
}

impl<T> StaticConfigStream<T> {
    /// The value still to be yielded, if any.
    pub closed spec fn spec_pending_value(&self) -> Option<T> {
        self.value
    }

    pub fn new(value: T) -> (r: StaticConfigStream<T>)
        ensures
            r.spec_pending_value() == Some(value),
    {
        StaticConfigStream { value: Some(value) }
    }

    /// The next poll: the value on the first call, `Pending` on every later one.
    pub fn poll_next(&mut self) -> (r: ConfigPoll<T>)
        ensures
            final(self).spec_pending_value() is None,
            match old(self).spec_pending_value() {
                Some(t) => r == ConfigPoll::Ready(t),
                None => r is Pending,
            },
    {
        match self.value.take() {
            Some(t) => ConfigPoll::Ready(t),
            None => ConfigPoll::Pending,
        }
    }
}

/// A stream that yields one configuration and then stalls serves a ready
/// acceptor as a static configuration does: after its one value, and
/// whatever connections are accepted meanwhile, the acceptor is still ready.
pub proof fn lemma_single_config_then_stall<T, C>(s: AcceptorState, t: T, es: Seq<AcceptorEvent<T, C>>)
    requires
        s is Ready,
        forall|i: int| 0 <= i < es.len() ==> is_live_event(#[trigger] es[i]),
    ensures
        poll_event_spec::<T, C>(ConfigPoll::Ready(t)) is Some,
        poll_event_spec::<T, C>(ConfigPoll::Pending) is None,
        run_state(s, seq![poll_event_spec::<T, C>(ConfigPoll::Ready(t))->Some_0] + es) is Ready,
{
    let all = seq![poll_event_spec::<T, C>(ConfigPoll::Ready(t))->Some_0] + es;
    assert forall|i: int| 0 <= i < all.len() implies is_live_event(#[trigger] all[i]) by {
        if i > 0 {
            assert(all[i] == es[i - 1]);
        }
    }
    lemma_quiet_stream_keeps_ready(s, all);
}

} // verus!
