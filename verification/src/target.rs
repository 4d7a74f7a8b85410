//! The probe's view of a target endpoint: the pieces of a parsed URL that
//! the wire protocol actually uses (host, port, path), held as plain values.
//! The caller resolves and parses the URL; a probe never re-parses it.

use vstd::prelude::*;
use crate::fmt::{spec_dec, dec_u128};

verus! {

/// A target endpoint: host name, port, and request path, as the bytes that
/// will be embedded verbatim in request lines. Immutable for the duration
/// of a probe.
pub struct Target {
    /// Host name (or address text) for the `Host:` header and TLS server name.
    pub host: Vec<u8>,
    /// Port, already defaulted from the URL scheme by the caller.
    pub port: u16,
    /// Request path, starting with `/`.
    pub path: Vec<u8>,
}

/// The `host:port` text placed in the `Host:` header.
pub open spec fn spec_host_port(host: Seq<u8>, port: nat) -> Seq<u8> {
    host + seq![58u8] + spec_dec(port)
}

impl Target {
    pub fn new(host: Vec<u8>, port: u16, path: Vec<u8>) -> (t: Target)
        ensures
            t.host@ == host@,
            t.port == port,
            t.path@ == path@,
    {
        Target { host, port, path }
    }

    /// Render `host:port` for the `Host:` header (`58` is the colon).
    pub fn host_port(&self) -> (hp: Vec<u8>)
        ensures
            hp@ == spec_host_port(self.host@, self.port as nat),
    {
        let mut hp: Vec<u8> = Vec::new();
        hp.extend_from_slice(self.host.as_slice());
        hp.push(58u8);
        let digits = dec_u128(self.port as u128);
        hp.extend_from_slice(digits.as_slice());
        proof {
            assert(hp@ =~= spec_host_port(self.host@, self.port as nat));
        }
        hp
    }
}

} // verus!
