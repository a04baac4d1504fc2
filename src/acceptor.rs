use vstd::prelude::*;

use crate::config_stream::{poll_event, poll_event_spec, ConfigPoll};
use crate::error::ListenError;

verus! {

/// The address a listening socket is bound to, as plain values.
#[derive(Clone, Copy, PartialEq, Eq, Structural, Debug)]
pub struct BoundAddr {
    pub ip: u128,
    pub port: u16,
}

/// The lifecycle of an acceptor.
#[derive(Clone, Copy, PartialEq, Eq, Structural, Debug)]
pub enum AcceptorState {
    /// No configuration has arrived yet; no socket is bound.
    NoConfig,
    /// The first configuration arrived and the socket is being bound.
    Binding,
    /// The endpoint is bound and accepting; `generation` counts the
    /// configurations applied to it.
    Ready { addr: BoundAddr, generation: u64 },
    /// A fatal error ended the acceptor.
    Closed,
}

/// What happened outside the acceptor.
pub enum AcceptorEvent<T, C> {
    /// The configuration stream yielded its next value.
    ConfigArrived(T),
    /// The configuration stream ended; the last configuration stays.
    ConfigStreamEnded,
    /// Building the crypto context for a received configuration failed.
    ConfigRejected,
    /// The socket was bound.
    Bound(BoundAddr),
    /// The socket could not be bound.
    BindFailed,
    /// The endpoint accepted an inbound connection.
    Accepted(C),
    /// The endpoint failed for good.
    TransportFailed,
}

/// What the acceptor asks its driver to do next.
pub enum AcceptorAction<T, C> {
    /// Bind the socket with the first configuration.
    Bind(T),
    /// Hand the configuration to the bound endpoint, in place.
    Reconfigure(T),
    /// Hand the accepted connection to the caller.
    Yield(C),
    /// Report the error upward; the state says whether it was fatal.
    Report(ListenError),
    /// Nothing to do; keep waiting on both sources.
    Wait,
}

/// The acceptor's state after `e` in state `s`.
pub open spec fn next_state<T, C>(s: AcceptorState, e: AcceptorEvent<T, C>) -> AcceptorState {
    match s {
        AcceptorState::NoConfig => match e {
            AcceptorEvent::ConfigArrived(_) => AcceptorState::Binding,
            AcceptorEvent::ConfigRejected => AcceptorState::Closed,
            AcceptorEvent::TransportFailed => AcceptorState::Closed,
            _ => s,
        },
        AcceptorState::Binding => match e {
            AcceptorEvent::Bound(a) => AcceptorState::Ready { addr: a, generation: 1 },
            AcceptorEvent::BindFailed => AcceptorState::Closed,
            AcceptorEvent::TransportFailed => AcceptorState::Closed,
            _ => s,
        },
        AcceptorState::Ready { addr, generation } => match e {
            AcceptorEvent::ConfigArrived(_) => AcceptorState::Ready {
                addr,
                generation: if generation < u64::MAX { (generation + 1) as u64 } else { generation },
            },
            AcceptorEvent::TransportFailed => AcceptorState::Closed,
            _ => s,
        },
        AcceptorState::Closed => s,
    }
}

/// The action that the acceptor takes on `e` in state `s`.
pub open spec fn next_action<T, C>(s: AcceptorState, e: AcceptorEvent<T, C>) -> AcceptorAction<T, C> {
    match s {
        AcceptorState::NoConfig => match e {
            AcceptorEvent::ConfigArrived(t) => AcceptorAction::Bind(t),
            AcceptorEvent::ConfigRejected => AcceptorAction::Report(ListenError::Config),
            AcceptorEvent::TransportFailed => AcceptorAction::Report(ListenError::Transport),
            _ => AcceptorAction::Wait,
        },
        AcceptorState::Binding => match e {
            AcceptorEvent::BindFailed => AcceptorAction::Report(ListenError::Bind),
            AcceptorEvent::TransportFailed => AcceptorAction::Report(ListenError::Transport),
            _ => AcceptorAction::Wait,
        },
        AcceptorState::Ready { .. } => match e {
            AcceptorEvent::ConfigArrived(t) => AcceptorAction::Reconfigure(t),
            AcceptorEvent::ConfigRejected => AcceptorAction::Report(ListenError::Config),
            AcceptorEvent::Accepted(c) => AcceptorAction::Yield(c),
            AcceptorEvent::TransportFailed => AcceptorAction::Report(ListenError::Transport),
            _ => AcceptorAction::Wait,
        },
        AcceptorState::Closed => AcceptorAction::Wait,
    }
}

/// The acceptor of a QUIC endpoint, as a state machine: its driver waits on
/// the configuration stream and on the endpoint at once, feeds each outcome
/// to `step`, and performs the action that comes back.
pub struct QuinnAcceptor {
    pub state: AcceptorState,
}

impl QuinnAcceptor {
    /// A fresh acceptor, waiting for its first configuration.
    pub fn new() -> (r: QuinnAcceptor)
        ensures
            r.state == AcceptorState::NoConfig,
    {
        QuinnAcceptor { state: AcceptorState::NoConfig }
    }

    /// Whether the endpoint is bound and accepting.
    pub fn is_ready(&self) -> (r: bool)
        ensures
            r == (self.state is Ready),
    {
        match self.state {
            AcceptorState::Ready { .. } => true,
            _ => false,
        }
    }

    /// The bound address, once there is one.
    pub fn local_addr(&self) -> (r: Option<BoundAddr>)
        ensures
            r == (match self.state {
                AcceptorState::Ready { addr, .. } => Some(addr),
                _ => None,
            }),
    {
        match self.state {
            AcceptorState::Ready { addr, .. } => Some(addr),
            _ => None,
        }
    }

    /// Takes one poll of the configuration stream. A pending stream changes
    /// nothing and asks for nothing; otherwise its event is taken as by `step`.
    pub fn on_config_poll<T, C>(&mut self, p: ConfigPoll<T>) -> (r: Option<AcceptorAction<T, C>>)
        ensures
            match poll_event_spec::<T, C>(p) {
                None => final(self).state == old(self).state && r is None,
                Some(e) => final(self).state == next_state(old(self).state, e) && r == Some(
                    next_action(old(self).state, e),
                ),
            },
    {
        match poll_event::<T, C>(p) {
            None => None,
            Some(e) => Some(self.step(e)),
        }
    }

    /// Takes one event and returns what to do about it.
    pub fn step<T, C>(&mut self, e: AcceptorEvent<T, C>) -> (r: AcceptorAction<T, C>)
        ensures
            final(self).state == next_state(old(self).state, e),
            r == next_action(old(self).state, e),
    {
        let s = self.state;
        match s {
            AcceptorState::NoConfig => match e {
                AcceptorEvent::ConfigArrived(t) => {
                    self.state = AcceptorState::Binding;
                    AcceptorAction::Bind(t)
                },
                AcceptorEvent::ConfigRejected => {
                    self.state = AcceptorState::Closed;
                    AcceptorAction::Report(ListenError::Config)
                },
                AcceptorEvent::TransportFailed => {
                    self.state = AcceptorState::Closed;
                    AcceptorAction::Report(ListenError::Transport)
                },
                _ => AcceptorAction::Wait,
            },
            AcceptorState::Binding => match e {
                AcceptorEvent::Bound(a) => {
                    self.state = AcceptorState::Ready { addr: a, generation: 1 };
                    AcceptorAction::Wait
                },
                AcceptorEvent::BindFailed => {
                    self.state = AcceptorState::Closed;
                    AcceptorAction::Report(ListenError::Bind)
                },
                AcceptorEvent::TransportFailed => {
                    self.state = AcceptorState::Closed;
                    AcceptorAction::Report(ListenError::Transport)
                },
                _ => AcceptorAction::Wait,
            },
            AcceptorState::Ready { addr, generation } => match e {
                AcceptorEvent::ConfigArrived(t) => {
                    let g: u64 = if generation < u64::MAX { generation + 1 } else { generation };
                    self.state = AcceptorState::Ready { addr, generation: g };
                    AcceptorAction::Reconfigure(t)
                },
                AcceptorEvent::ConfigRejected => AcceptorAction::Report(ListenError::Config),
                AcceptorEvent::Accepted(c) => AcceptorAction::Yield(c),
                AcceptorEvent::TransportFailed => {
                    self.state = AcceptorState::Closed;
                    AcceptorAction::Report(ListenError::Transport)
                },
                _ => AcceptorAction::Wait,
            },
            AcceptorState::Closed => AcceptorAction::Wait,
        }
    }
}

/// The state after each event of `es` in turn, from `s`.
pub open spec fn run_state<T, C>(s: AcceptorState, es: Seq<AcceptorEvent<T, C>>) -> AcceptorState
    decreases es.len(),
{
    if es.len() == 0 {
        s
    } else {
        run_state(next_state(s, es[0]), es.drop_first())
    }
}

/// The actions taken on each event of `es` in turn, from `s`.
pub open spec fn run_actions<T, C>(s: AcceptorState, es: Seq<AcceptorEvent<T, C>>) -> Seq<AcceptorAction<T, C>>
    decreases es.len(),
{
    if es.len() == 0 {
        Seq::empty()
    } else {
        seq![next_action(s, es[0])] + run_actions(next_state(s, es[0]), es.drop_first())
    }
}

/// The connections that the endpoint accepted in `es`, in order.
pub open spec fn accepted_in<T, C>(es: Seq<AcceptorEvent<T, C>>) -> Seq<C>
    decreases es.len(),
{
    if es.len() == 0 {
        Seq::empty()
    } else {
        match es[0] {
            AcceptorEvent::Accepted(c) => seq![c] + accepted_in(es.drop_first()),
            _ => accepted_in(es.drop_first()),
        }
    }
}

/// The connections handed to the caller by `acts`, in order.
pub open spec fn yielded_in<T, C>(acts: Seq<AcceptorAction<T, C>>) -> Seq<C>
    decreases acts.len(),
{
    if acts.len() == 0 {
        Seq::empty()
    } else {
        match acts[0] {
            AcceptorAction::Yield(c) => seq![c] + yielded_in(acts.drop_first()),
            _ => yielded_in(acts.drop_first()),
        }
    }
}

/// The events that a running endpoint sees while it is not failing: new
/// configurations (good or rejected), the end of the configuration stream,
/// and accepted connections.
pub open spec fn is_live_event<T, C>(e: AcceptorEvent<T, C>) -> bool {
    match e {
        AcceptorEvent::ConfigArrived(_) => true,
        AcceptorEvent::ConfigRejected => true,
        AcceptorEvent::ConfigStreamEnded => true,
        AcceptorEvent::Accepted(_) => true,
        _ => false,
    }
}

/// Configuration updates interleaved with accepted connections, on a ready
/// acceptor: every accepted connection is handed out once, in the order of
/// acceptance, none is lost, and the bound address stays what it was.
pub proof fn lemma_updates_keep_connections_and_addr<T, C>(
    addr: BoundAddr,
    generation: u64,
    es: Seq<AcceptorEvent<T, C>>,
)
    requires
        forall|i: int| 0 <= i < es.len() ==> is_live_event(#[trigger] es[i]),
    ensures
        yielded_in(run_actions(AcceptorState::Ready { addr, generation }, es)) == accepted_in(es),
        run_state(AcceptorState::Ready { addr, generation }, es) matches AcceptorState::Ready { addr: a, .. } && a == addr,
    decreases es.len(),
{
    let s = AcceptorState::Ready { addr, generation };
    if es.len() > 0 {
        let rest = es.drop_first();
        assert(is_live_event(es[0]));
        assert forall|i: int| 0 <= i < rest.len() implies is_live_event(#[trigger] rest[i]) by {
            assert(rest[i] == es[i + 1]);
        }
        let s1 = next_state(s, es[0]);
        let g1: u64 = match s1 {
            AcceptorState::Ready { generation: g, .. } => g,
            _ => 0,
        };
        assert(s1 == AcceptorState::Ready { addr, generation: g1 });
        lemma_updates_keep_connections_and_addr::<T, C>(addr, g1, rest);
        let acts = run_actions(s, es);
        assert(acts.drop_first() =~= run_actions(s1, rest));
    }
}

/// A configuration stream that goes quiet or ends never closes a ready
/// acceptor: only a transport failure does.
pub proof fn lemma_quiet_stream_keeps_ready<T, C>(s: AcceptorState, es: Seq<AcceptorEvent<T, C>>)
    requires
        s is Ready,
        forall|i: int| 0 <= i < es.len() ==> is_live_event(#[trigger] es[i]),
    ensures
        run_state(s, es) is Ready,
{
    match s {
        AcceptorState::Ready { addr, generation } => {
            lemma_updates_keep_connections_and_addr::<T, C>(addr, generation, es);
        },
        _ => {},
    }
}

} // verus!
