use vstd::prelude::*;

use crate::alpn::{byte_strings_view, h3_alpn_protocols, h3_alpn_spec};
use crate::error::ListenError;

verus! {

/// The configuration handed to the QUIC endpoint: the crypto context built
/// from a TLS configuration, and the ALPN identifiers it advertises.
pub struct ServerTransportConfig<C> {
    alpn_protocols: Vec<Vec<u8>>,
    crypto: C,
}

impl<C> ServerTransportConfig<C> {
    pub closed spec fn spec_alpn(&self) -> Seq<Seq<u8>> {
        byte_strings_view(self.alpn_protocols@)
    }

    pub closed spec fn spec_crypto(&self) -> C {
        self.crypto
    }

    /// The ALPN identifiers this configuration advertises.
    pub fn alpn_protocols(&self) -> (r: &Vec<Vec<u8>>)
        ensures
            byte_strings_view(r@) == self.spec_alpn(),
    {
        &self.alpn_protocols
    }

    /// The crypto context.
    pub fn crypto(&self) -> (r: &C)
        ensures
            *r == self.spec_crypto(),
    {
        &self.crypto
    }

    /// Gives up the crypto context.
    pub fn into_crypto(self) -> (r: C)
        ensures
            r == self.spec_crypto(),
    {
        self.crypto
    }
}

/// Turns the outcome of building a TLS crypto context into the endpoint's
/// configuration. A context that could not be built gives
/// `ListenError::Config` and no configuration; one that was built is kept
/// as it is, with the fixed HTTP/3 ALPN identifiers, whatever it held
/// before.
pub fn to_transport_config<C, E>(built: Result<C, E>) -> (r: Result<ServerTransportConfig<C>, ListenError>)
    ensures
        r is Ok <==> built is Ok,
        built is Err ==> r == Err::<ServerTransportConfig<C>, ListenError>(ListenError::Config),
        r is Ok ==> r->Ok_0.spec_alpn() == h3_alpn_spec() && r->Ok_0.spec_crypto() == built->Ok_0,
{
    match built {
        Ok(crypto) => Ok(ServerTransportConfig { alpn_protocols: h3_alpn_protocols(), crypto }),
        Err(_) => Err(ListenError::Config),
    }
}

} // verus!
