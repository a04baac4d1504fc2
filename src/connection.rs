use vstd::prelude::*;

use crate::error::ConnError;
use crate::serve::{ConnEvent, ConnStep, ServeLoop, ConnAction};

verus! {

/// h3-quinn's Connection (re-exported by salvo-http3), carried through
/// as an opaque value.
#[verifier::external_type_specification]
#[verifier::external_body]
pub struct ExH3QuinnConnection(salvo_http3::quinn::Connection);

/// tokio-util's CancellationToken, the shared graceful stop signal,
/// carried through as an opaque value.
#[verifier::external_type_specification]
#[verifier::external_body]
pub struct ExCancellationToken(tokio_util::sync::CancellationToken);

/// Relies on tokio_util's CancellationToken::is_cancelled: whether the stop
/// was signalled, which another task may do at any moment.
pub assume_specification[ tokio_util::sync::CancellationToken::is_cancelled ](
    t: &tokio_util::sync::CancellationToken,
) -> bool;

/// An HTTP/3 connection: one accepted QUIC connection and the health sink
/// that its failures are reported to, if any.
pub struct H3Connection<S> {
    inner: salvo_http3::quinn::Connection,
    fusewire: Option<S>,
}

impl<S: Clone> H3Connection<S> {
    pub closed spec fn spec_inner(&self) -> salvo_http3::quinn::Connection {
        self.inner
    }

    pub closed spec fn spec_fusewire(&self) -> Option<S> {
        self.fusewire
    }

    pub fn new(inner: salvo_http3::quinn::Connection, fusewire: Option<S>) -> (r: H3Connection<S>)
        ensures
            r.spec_inner() == inner,
            r.spec_fusewire() == fusewire,
    {
        H3Connection { inner, fusewire }
    }

    /// The QUIC connection inside.
    pub fn into_inner(self) -> (r: salvo_http3::quinn::Connection)
        ensures
            r == self.spec_inner(),
    {
        self.inner
    }

    /// The health sink, if one listens.
    pub fn fusewire(&self) -> (r: Option<S>)
        ensures
            r is Some <==> self.spec_fusewire() is Some,
            r is Some ==> cloned(self.spec_fusewire()->Some_0, r->Some_0),
    {
        self.fusewire.clone()
    }

    /// The serve loop for this connection, reporting to the sink if there is one.
    pub fn serve_loop(&self) -> (r: ServeLoop)
        ensures
            r.wf(),
            r@.in_flight.len() == 0,
            !r@.stopping,
            !r@.closed,
            r.spec_has_sink() == (self.spec_fusewire() is Some),
    {
        ServeLoop::new(self.fusewire.is_some())
    }

    /// A flat byte read: a QUIC connection has no byte stream, so this always
    /// fails and leaves the buffer as it was.
    pub fn poll_read(&mut self, buf: &mut Vec<u8>) -> (r: Result<(), ConnError>)
        ensures
            r == Err::<(), ConnError>(ConnError::UnsupportedOperation),
            final(buf)@ == old(buf)@,
            final(self).spec_inner() == old(self).spec_inner(),
            final(self).spec_fusewire() == old(self).spec_fusewire(),
    {
        Err(ConnError::UnsupportedOperation)
    }

    /// A flat byte write: always fails, and writes nothing.
    pub fn poll_write(&mut self, buf: &[u8]) -> (r: Result<usize, ConnError>)
        ensures
            r == Err::<usize, ConnError>(ConnError::UnsupportedOperation),
            final(self).spec_inner() == old(self).spec_inner(),
            final(self).spec_fusewire() == old(self).spec_fusewire(),
    {
        Err(ConnError::UnsupportedOperation)
    }

    /// A flush of the byte stream: always fails.
    pub fn poll_flush(&mut self) -> (r: Result<(), ConnError>)
        ensures
            r == Err::<(), ConnError>(ConnError::UnsupportedOperation),
            final(self).spec_inner() == old(self).spec_inner(),
            final(self).spec_fusewire() == old(self).spec_fusewire(),
    {
        Err(ConnError::UnsupportedOperation)
    }

    /// A shutdown of the byte stream: always fails.
    pub fn poll_shutdown(&mut self) -> (r: Result<(), ConnError>)
        ensures
            r == Err::<(), ConnError>(ConnError::UnsupportedOperation),
            final(self).spec_inner() == old(self).spec_inner(),
            final(self).spec_fusewire() == old(self).spec_fusewire(),
    {
        Err(ConnError::UnsupportedOperation)
    }
}

/// Checks the graceful stop token at a yield point of the serve loop: if it
/// was signalled, the loop takes the stop; if not, nothing changes.
pub fn check_stop(serve: &mut ServeLoop, token: &tokio_util::sync::CancellationToken) -> (r: ConnStep)
    requires
        old(serve).wf(),
    ensures
        final(serve).wf(),
        final(serve).spec_has_sink() == old(serve).spec_has_sink(),
        final(serve)@ == old(serve)@ && r == (ConnStep { action: ConnAction::Wait, report_health: false })
        || (!old(serve)@.closed && final(serve)@.stopping
            && final(serve)@.in_flight == old(serve)@.in_flight
            && !r.report_health
            && (if old(serve)@.in_flight.len() == 0 {
                final(serve)@.closed && r.action == ConnAction::Close(crate::serve::H3_NO_ERROR)
            } else {
                !final(serve)@.closed && r.action == ConnAction::Wait
            })),
{
    if token.is_cancelled() && !serve.is_closed() {
        serve.step(ConnEvent::StopSignaled)
    } else {
        ConnStep { action: ConnAction::Wait, report_health: false }
    }
}

} // verus!
