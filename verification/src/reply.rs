//! Reply encoding: the typed command failures, the one-byte code each maps
//! to on the wire, and the ten-byte success and failure replies.

use vstd::prelude::*;

verus! {

/// The SOCKS protocol version byte.
pub const SOCKS_VERSION: u8 = 0x05;

/// The sub-negotiation version byte of username/password authentication.
pub const AUTH_VERSION: u8 = 0x01;

/// A command failure reportable to the client over SOCKS. Each kind maps to
/// one reply code between `0x01` and `0x08`.
#[derive(Clone, Copy, Debug, PartialEq, Eq, Structural)]
pub enum CommandError {
    ServerFailure,
    DisallowedConnection,
    NetworkUnreachable,
    HostUnreachable,
    ConnectionRefused,
    TtlExpired,
    UnsupportedCommand,
    UnsupportedAddr,
}

/// The one-byte reply code of a command failure.
pub open spec fn spec_reply_code(e: CommandError) -> u8 {
    match e {
        CommandError::ServerFailure => 0x01,
        CommandError::DisallowedConnection => 0x02,
        CommandError::NetworkUnreachable => 0x03,
        CommandError::HostUnreachable => 0x04,
        CommandError::ConnectionRefused => 0x05,
        CommandError::TtlExpired => 0x06,
        CommandError::UnsupportedCommand => 0x07,
        CommandError::UnsupportedAddr => 0x08,
    }
}

impl CommandError {
    /// The one-byte reply code of this failure.
    pub fn code(&self) -> (r: u8)
        ensures
            r == spec_reply_code(*self),
    {
        match self {
            CommandError::ServerFailure => 0x01,
            CommandError::DisallowedConnection => 0x02,
            CommandError::NetworkUnreachable => 0x03,
            CommandError::HostUnreachable => 0x04,
            CommandError::ConnectionRefused => 0x05,
            CommandError::TtlExpired => 0x06,
            CommandError::UnsupportedCommand => 0x07,
            CommandError::UnsupportedAddr => 0x08,
        }
    }
}

/// A ten-byte reply carrying the given status code and the bound address
/// IPv4 0.0.0.0:0, which is all this proxy ever reports.
pub open spec fn spec_reply(code: u8) -> Seq<u8> {
    seq![SOCKS_VERSION, code, 0x00u8, 0x01u8, 0u8, 0u8, 0u8, 0u8, 0u8, 0u8]
}

/// The ten-byte success reply.
pub open spec fn spec_success_reply() -> Seq<u8> {
    spec_reply(0x00)
}

/// The ten-byte failure reply of a command failure.
pub open spec fn spec_failure_reply(e: CommandError) -> Seq<u8> {
    spec_reply(spec_reply_code(e))
}

/// Builds the ten-byte reply with the given status code.
pub fn encode_reply(code: u8) -> (r: Vec<u8>)
    ensures
        r@ == spec_reply(code),
{
    let mut v: Vec<u8> = Vec::new();
    v.push(SOCKS_VERSION);
    v.push(code);
    v.push(0x00);
    v.push(0x01);
    v.push(0x00);
    v.push(0x00);
    v.push(0x00);
    v.push(0x00);
    v.push(0x00);
    v.push(0x00);
    assert(v@ =~= spec_reply(code));
    v
}

/// Builds the ten-byte success reply.
pub fn encode_success_reply() -> (r: Vec<u8>)
    ensures
        r@ == spec_success_reply(),
{
    encode_reply(0x00)
}

/// Builds the ten-byte failure reply of a command failure.
pub fn encode_failure_reply(e: CommandError) -> (r: Vec<u8>)
    ensures
        r@ == spec_failure_reply(e),
{
    encode_reply(e.code())
}

/// Every reply the encoder can build starts with the SOCKS version byte and
/// is exactly ten bytes long.
pub proof fn lemma_reply_versioned(code: u8)
    ensures
        spec_reply(code).len() == 10,
        spec_reply(code)[0] == SOCKS_VERSION,
{
}

} // verus!
