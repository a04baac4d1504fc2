use vstd::prelude::*;

verus! {

/// The HTTP/3 application error code sent when a connection is closed
/// gracefully (H3_NO_ERROR).
pub const H3_NO_ERROR: u64 = 0x100;

/// How one request stream ended.
#[derive(Clone, Copy, PartialEq, Eq, Structural, Debug)]
pub enum StreamOutcome {
    /// The handler answered and the response was sent.
    Completed,
    /// The handler itself failed; the stream was answered with an error.
    HandlerFailed,
    /// The peer reset the stream.
    PeerReset,
    /// The transport failed under the stream.
    TransportFailed,
}

impl StreamOutcome {
    /// Whether the outcome points at trouble with the peer or the network,
    /// which the health sink hears of.
    pub open spec fn is_peer_or_network_spec(self) -> bool {
        self is PeerReset || self is TransportFailed
    }

    pub fn is_peer_or_network(&self) -> (r: bool)
        ensures
            r == self.is_peer_or_network_spec(),
    {
        match self {
            StreamOutcome::PeerReset => true,
            StreamOutcome::TransportFailed => true,
            _ => false,
        }
    }
}

/// What happened on the connection.
#[derive(Clone, Copy, PartialEq, Eq, Structural, Debug)]
pub enum ConnEvent {
    /// The peer opened the bidirectional stream with this id.
    StreamOpened(u64),
    /// The stream with this id ended.
    StreamEnded(u64, StreamOutcome),
    /// The graceful stop token was signalled.
    StopSignaled,
    /// The peer closed the connection.
    PeerClosed,
    /// The connection failed for good.
    Failed,
}

/// What the serve loop asks its driver to do.
#[derive(Clone, Copy, PartialEq, Eq, Structural, Debug)]
pub enum ConnAction {
    /// Serve the stream as one request, concurrently with the others.
    Serve(u64),
    /// Refuse the stream: the connection is winding down.
    Refuse(u64),
    /// Close the connection with this application error code.
    Close(u64),
    /// The connection is over; stop driving it.
    Finish,
    /// Nothing to do.
    Wait,
}

/// The answer of the serve loop to one event.
#[derive(Clone, Copy, PartialEq, Eq, Structural, Debug)]
pub struct ConnStep {
    pub action: ConnAction,
    /// Whether the health sink is to be told of a failed stream.
    pub report_health: bool,
}

/// The serve loop's view: the streams in flight, whether a stop was asked
/// for, whether the connection is over.
pub struct ServeView {
    pub in_flight: Seq<u64>,
    pub stopping: bool,
    pub closed: bool,
}

/// The decisions of the HTTP/3 serve loop of one connection.
pub struct ServeLoop {
    in_flight: Vec<u64>,
    stopping: bool,
    closed: bool,
    has_sink: bool,
}

impl View for ServeLoop {
    type V = ServeView;

    closed spec fn view(&self) -> ServeView {
        ServeView { in_flight: self.in_flight@, stopping: self.stopping, closed: self.closed }
    }
}

/// The streams in flight after `id` ended.
pub open spec fn without(s: Seq<u64>, id: u64) -> Seq<u64> {
    s.filter(other_than(id))
}

/// Holds of every stream id but `id`.
pub open spec fn other_than(id: u64) -> spec_fn(u64) -> bool {
    |x: u64| x != id
}

/// The serve loop's view after `e` in view `v`.
pub open spec fn serve_next(v: ServeView, e: ConnEvent) -> ServeView {
    if v.closed {
        v
    } else {
        match e {
            ConnEvent::StreamOpened(id) => if v.stopping || v.in_flight.contains(id) {
                v
            } else {
                ServeView { in_flight: v.in_flight.push(id), ..v }
            },
            ConnEvent::StreamEnded(id, _) => {
                let rest = without(v.in_flight, id);
                ServeView { in_flight: rest, closed: v.stopping && rest.len() == 0, ..v }
            },
            ConnEvent::StopSignaled => ServeView { stopping: true, closed: v.in_flight.len() == 0, ..v },
            ConnEvent::PeerClosed | ConnEvent::Failed => ServeView { closed: true, ..v },
        }
    }
}

/// The serve loop's answer to `e` in view `v`; `has_sink` tells whether a
/// health sink listens.
pub open spec fn serve_answer(v: ServeView, has_sink: bool, e: ConnEvent) -> ConnStep {
    let quiet = ConnStep { action: ConnAction::Wait, report_health: false };
    if v.closed {
        quiet
    } else {
        match e {
            ConnEvent::StreamOpened(id) => if v.stopping {
                ConnStep { action: ConnAction::Refuse(id), report_health: false }
            } else if v.in_flight.contains(id) {
                quiet
            } else {
                ConnStep { action: ConnAction::Serve(id), report_health: false }
            },
            ConnEvent::StreamEnded(id, outcome) => ConnStep {
                action: if v.stopping && without(v.in_flight, id).len() == 0 {
                    ConnAction::Close(H3_NO_ERROR)
                } else {
                    ConnAction::Wait
                },
                report_health: has_sink && outcome.is_peer_or_network_spec(),
            },
            ConnEvent::StopSignaled => ConnStep {
                action: if v.in_flight.len() == 0 { ConnAction::Close(H3_NO_ERROR) } else { ConnAction::Wait },
                report_health: false,
            },
            ConnEvent::PeerClosed | ConnEvent::Failed => ConnStep { action: ConnAction::Finish, report_health: false },
        }
    }
}

impl ServeLoop {
    pub closed spec fn spec_has_sink(&self) -> bool {
        self.has_sink
    }

    /// The stream ids in flight are distinct.
    pub open spec fn wf(&self) -> bool {
        self@.in_flight.no_duplicates()
    }

    /// A loop for a fresh connection; `has_sink` tells whether a health sink
    /// listens.
    pub fn new(has_sink: bool) -> (r: ServeLoop)
        ensures
            r.wf(),
            r@.in_flight == Seq::<u64>::empty(),
            !r@.stopping,
            !r@.closed,
            r.spec_has_sink() == has_sink,
    {
        ServeLoop { in_flight: Vec::new(), stopping: false, closed: false, has_sink }
    }

    /// The number of request streams being served.
    pub fn in_flight_count(&self) -> (r: usize)
        ensures
            r == self@.in_flight.len(),
    {
        self.in_flight.len()
    }

    /// Whether a stop was asked for.
    pub fn is_stopping(&self) -> (r: bool)
        ensures
            r == self@.stopping,
    {
        self.stopping
    }

    /// Whether the connection is over.
    pub fn is_closed(&self) -> (r: bool)
        ensures
            r == self@.closed,
    {
        self.closed
    }

    fn contains(&self, id: u64) -> (r: bool)
        ensures
            r == self@.in_flight.contains(id),
    {
        let mut i: usize = 0;
        while i < self.in_flight.len()
            invariant
                0 <= i <= self.in_flight@.len(),
                forall|j: int| 0 <= j < i ==> self.in_flight@[j] != id,
            decreases self.in_flight@.len() - i,
        {
            if self.in_flight[i] == id {
                return true;
            }
            i = i + 1;
        }
        false
    }

    fn remove(&mut self, id: u64)
        requires
            old(self).wf(),
        ensures
            final(self).wf(),
            final(self)@.in_flight == without(old(self)@.in_flight, id),
            final(self)@.stopping == old(self)@.stopping,
            final(self)@.closed == old(self)@.closed,
            final(self).spec_has_sink() == old(self).spec_has_sink(),
    {
        let mut kept: Vec<u64> = Vec::new();
        let mut i: usize = 0;
        while i < self.in_flight.len()
            invariant
                0 <= i <= self.in_flight@.len(),
                kept@ == self.in_flight@.subrange(0, i as int).filter(other_than(id)),
                self.in_flight@.no_duplicates(),
                kept@.no_duplicates(),
                forall|k: int| 0 <= k < kept@.len() ==> exists|j: int| 0 <= j < i && self.in_flight@[j] == #[trigger] kept@[k],
            decreases self.in_flight@.len() - i,
        {
            proof {
                reveal(Seq::filter);
                assert(self.in_flight@.subrange(0, i + 1).drop_last() =~= self.in_flight@.subrange(0, i as int));
            }
            if self.in_flight[i] != id {
                let ghost before = kept@;
                kept.push(self.in_flight[i]);
                proof {
                    assert forall|k: int| 0 <= k < kept@.len() implies exists|j: int| 0 <= j < i + 1 && self.in_flight@[j] == #[trigger] kept@[k] by {
                        if k < before.len() {
                            assert(kept@[k] == before[k]);
                        } else {
                            assert(self.in_flight@[i as int] == kept@[k]);
                        }
                    }
                    assert forall|a: int, b: int| 0 <= a < kept@.len() && 0 <= b < kept@.len() && a != b implies kept@[a] != kept@[b] by {
                        if a < before.len() && b < before.len() {
                        } else if a < before.len() {
                            assert(kept@[a] == before[a]);
                        } else if b < before.len() {
                            assert(kept@[b] == before[b]);
                        }
                    }
                }
            }
            i = i + 1;
        }
        proof {
            assert(self.in_flight@.subrange(0, i as int) =~= self.in_flight@);
        }
        self.in_flight = kept;
    }

    /// Takes one event and says what to do about it.
    ///
    /// A stream opened after the stop was asked for is refused; streams in
    /// flight are left to finish; the connection is closed with
    /// `H3_NO_ERROR` once a stop was asked for and no stream is in flight.
    pub fn step(&mut self, e: ConnEvent) -> (r: ConnStep)
        requires
            old(self).wf(),
        ensures
            final(self).wf(),
            final(self).spec_has_sink() == old(self).spec_has_sink(),
            final(self)@ == serve_next(old(self)@, e),
            r == serve_answer(old(self)@, old(self).spec_has_sink(), e),
    {
        if self.closed {
            return ConnStep { action: ConnAction::Wait, report_health: false };
        }
        match e {
            ConnEvent::StreamOpened(id) => {
                if self.stopping {
                    ConnStep { action: ConnAction::Refuse(id), report_health: false }
                } else if self.contains(id) {
                    ConnStep { action: ConnAction::Wait, report_health: false }
                } else {
                    proof {
                        assert(self.in_flight@.push(id).drop_last() =~= self.in_flight@);
                    }
                    self.in_flight.push(id);
                    ConnStep { action: ConnAction::Serve(id), report_health: false }
                }
            },
            ConnEvent::StreamEnded(id, outcome) => {
                self.remove(id);
                let report = self.has_sink && outcome.is_peer_or_network();
                if self.stopping && self.in_flight.len() == 0 {
                    self.closed = true;
                    ConnStep { action: ConnAction::Close(H3_NO_ERROR), report_health: report }
                } else {
                    ConnStep { action: ConnAction::Wait, report_health: report }
                }
            },
            ConnEvent::StopSignaled => {
                self.stopping = true;
                if self.in_flight.len() == 0 {
                    self.closed = true;
                    ConnStep { action: ConnAction::Close(H3_NO_ERROR), report_health: false }
                } else {
                    ConnStep { action: ConnAction::Wait, report_health: false }
                }
            },
            ConnEvent::PeerClosed | ConnEvent::Failed => {
                self.closed = true;
                ConnStep { action: ConnAction::Finish, report_health: false }
            },
        }
    }
}

/// The view after each event of `es` in turn, from `v`.
pub open spec fn serve_run(v: ServeView, es: Seq<ConnEvent>) -> ServeView
    decreases es.len(),
{
    if es.len() == 0 {
        v
    } else {
        serve_run(serve_next(v, es[0]), es.drop_first())
    }
}

/// The answers to each event of `es` in turn, from `v`.
pub open spec fn serve_answers(v: ServeView, has_sink: bool, es: Seq<ConnEvent>) -> Seq<ConnStep>
    decreases es.len(),
{
    if es.len() == 0 {
        Seq::empty()
    } else {
        seq![serve_answer(v, has_sink, es[0])] + serve_answers(serve_next(v, es[0]), has_sink, es.drop_first())
    }
}

/// Whether `e` neither ends stream `id` nor the connection.
pub open spec fn spares(e: ConnEvent, id: u64) -> bool {
    match e {
        ConnEvent::StreamEnded(j, _) => j != id,
        ConnEvent::PeerClosed | ConnEvent::Failed => false,
        _ => true,
    }
}

/// A stop signal takes effect at once: from the next event on, the
/// connection takes no new stream.
pub proof fn lemma_stop_refuses_new_streams(v: ServeView, has_sink: bool, id: u64)
    requires
        !v.closed,
    ensures
        serve_next(v, ConnEvent::StopSignaled).stopping,
        serve_answer(serve_next(v, ConnEvent::StopSignaled), has_sink, ConnEvent::StreamOpened(id)).action
            != ConnAction::Serve(id),
{
}

/// After the stop signal, a stream in flight is left to finish: whatever
/// happens meanwhile (new streams, other streams ending, the signal again),
/// the connection stays open, the stream stays in flight, and no new stream
/// is served.
pub proof fn lemma_stop_lets_stream_finish(v: ServeView, has_sink: bool, id: u64, es: Seq<ConnEvent>)
    requires
        v.stopping,
        !v.closed,
        v.in_flight.contains(id),
        forall|i: int| 0 <= i < es.len() ==> spares(#[trigger] es[i], id),
    ensures
        !serve_run(v, es).closed,
        serve_run(v, es).stopping,
        serve_run(v, es).in_flight.contains(id),
        serve_answers(v, has_sink, es).len() == es.len(),
        forall|i: int| 0 <= i < es.len() ==> !(#[trigger] serve_answers(v, has_sink, es)[i].action is Serve),
    decreases es.len(),
{
    if es.len() > 0 {
        let rest = es.drop_first();
        assert forall|i: int| 0 <= i < rest.len() implies spares(#[trigger] rest[i], id) by {
            assert(rest[i] == es[i + 1]);
        }
        assert(spares(es[0], id));
        let v1 = serve_next(v, es[0]);
        match es[0] {
            ConnEvent::StreamEnded(j, _) => {
                broadcast use vstd::seq_lib::group_filter_ensures;
                let k = choose|k: int| 0 <= k < v.in_flight.len() && v.in_flight[k] == id;
                assert(other_than(j)(v.in_flight[k]));
                assert(v1.in_flight.contains(id));
                assert(v1.in_flight.len() > 0);
            },
            _ => {},
        }
        lemma_stop_lets_stream_finish(v1, has_sink, id, rest);
        let acts = serve_answers(v, has_sink, es);
        assert(acts.drop_first() =~= serve_answers(v1, has_sink, rest));
        assert forall|i: int| 0 <= i < es.len() implies !(#[trigger] acts[i].action is Serve) by {
            if i > 0 {
                assert(acts[i] == acts.drop_first()[i - 1]);
            }
        }
    }
}

/// Once a stop was asked for, the end of the last stream in flight closes
/// the connection with `H3_NO_ERROR`.
pub proof fn lemma_last_stream_end_closes(v: ServeView, has_sink: bool, id: u64, outcome: StreamOutcome)
    requires
        v.stopping,
        !v.closed,
        v.in_flight == seq![id],
    ensures
        serve_next(v, ConnEvent::StreamEnded(id, outcome)).closed,
        serve_answer(v, has_sink, ConnEvent::StreamEnded(id, outcome)).action == ConnAction::Close(H3_NO_ERROR),
{
    reveal(Seq::filter);
    assert(v.in_flight.drop_last() =~= Seq::<u64>::empty());
    assert(Seq::<u64>::empty().filter(other_than(id)) =~= Seq::<u64>::empty());
    assert(without(v.in_flight, id) =~= Seq::<u64>::empty());
}

} // verus!
