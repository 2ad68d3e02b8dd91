//! A verified SOCKS5 proxy core: the per-connection protocol state machine
//! (method negotiation, username/password sub-negotiation, request parsing
//! across the three address families, and reply encoding), stated over byte
//! sequences and proved against the wire protocol's rules.
//!
//! The machine consumes events (bytes read from the client, the outcome of
//! the upstream dial, the end of the relay) and yields the bytes to send
//! back together with the next I/O action. A thin unverified driver performs
//! the actual socket work.

pub mod addr;
pub mod creds;
pub mod method;
pub mod reply;
pub mod session;
