//! The per-connection protocol state machine. Each call to [`Session::step`]
//! consumes one event (bytes read from the client, the outcome of the
//! upstream dial, or the end of the relay) and yields the bytes to send back
//! together with the next I/O action. The whole transition relation is the
//! spec function [`spec_step`]; the driver around the machine only moves
//! bytes.

use vstd::prelude::*;
use vstd::utf8::valid_utf8;

use crate::addr::{Address, AddressModel, spec_addr_wf, spec_be16, be16, take_bytes, IPV4_TYPE, DOMAIN_TYPE, IPV6_TYPE};
use crate::creds::{Credential, spec_creds_contain, check_credentials};
use crate::method::{spec_select, select_method, NO_ACCEPTABLE_METHOD, USER_PASS_METHOD};
use crate::reply::{SOCKS_VERSION, AUTH_VERSION, CommandError, spec_failure_reply, spec_success_reply, encode_failure_reply, encode_success_reply};

verus! {

/// The command byte of a CONNECT request, the only command supported.
pub const CONNECT_CMD: u8 = 0x01;

/// Where a session stands between two events. Each reading state records how
/// many bytes the machine has asked for next.
pub enum State {
    /// Awaiting the two greeting bytes: version and method count.
    Greeting,
    /// Awaiting the client's list of `n` method bytes.
    MethodList { n: u8 },
    /// Awaiting the two sub-negotiation bytes: auth version and username length.
    AuthHeader,
    /// Awaiting the `ulen` username bytes.
    AuthUsername { ulen: u8 },
    /// Awaiting the one password-length byte.
    AuthPassLen { username: Vec<u8> },
    /// Awaiting the `plen` password bytes.
    AuthPassword { username: Vec<u8>, plen: u8 },
    /// Awaiting the four request-header bytes.
    Request,
    /// Awaiting an IPv4 destination: four octets and the port.
    AddrV4,
    /// Awaiting an IPv6 destination: sixteen octets and the port.
    AddrV6,
    /// Awaiting the one domain-length byte.
    DomainLen,
    /// Awaiting the `dlen` domain bytes followed by the port.
    DomainBody { dlen: u8 },
    /// Awaiting the outcome of the upstream dial.
    Dialing,
    /// Awaiting the end of the bidirectional relay.
    Relaying,
    /// The session is over; the connection is to be closed.
    Done,
}

/// The mathematical shape of a session state.
pub enum StateModel {
    Greeting,
    MethodList { n: u8 },
    AuthHeader,
    AuthUsername { ulen: u8 },
    AuthPassLen { username: Seq<u8> },
    AuthPassword { username: Seq<u8>, plen: u8 },
    Request,
    AddrV4,
    AddrV6,
    DomainLen,
    DomainBody { dlen: u8 },
    Dialing,
    Relaying,
    Done,
}

impl View for State {
    type V = StateModel;

    open spec fn view(&self) -> StateModel {
        match self {
            State::Greeting => StateModel::Greeting,
            State::MethodList { n } => StateModel::MethodList { n: *n },
            State::AuthHeader => StateModel::AuthHeader,
            State::AuthUsername { ulen } => StateModel::AuthUsername { ulen: *ulen },
            State::AuthPassLen { username } => StateModel::AuthPassLen { username: username@ },
            State::AuthPassword { username, plen } => StateModel::AuthPassword {
                username: username@,
                plen: *plen,
            },
            State::Request => StateModel::Request,
            State::AddrV4 => StateModel::AddrV4,
            State::AddrV6 => StateModel::AddrV6,
            State::DomainLen => StateModel::DomainLen,
            State::DomainBody { dlen } => StateModel::DomainBody { dlen: *dlen },
            State::Dialing => StateModel::Dialing,
            State::Relaying => StateModel::Relaying,
            State::Done => StateModel::Done,
        }
    }
}

/// One event handed to the machine by the driver: the bytes it asked for,
/// the outcome of the dial it asked for, or the end of the relay.
pub enum Event {
    Bytes(Vec<u8>),
    DialSucceeded,
    DialFailed,
    RelayFinished,
}

/// The mathematical shape of an event.
pub enum EventModel {
    Bytes(Seq<u8>),
    DialSucceeded,
    DialFailed,
    RelayFinished,
}

impl View for Event {
    type V = EventModel;

    open spec fn view(&self) -> EventModel {
        match self {
            Event::Bytes(b) => EventModel::Bytes(b@),
            Event::DialSucceeded => EventModel::DialSucceeded,
            Event::DialFailed => EventModel::DialFailed,
            Event::RelayFinished => EventModel::RelayFinished,
        }
    }
}

/// The I/O the driver must perform next: read exactly `n` bytes from the
/// client, dial the destination, relay until both directions are done, or
/// close the client connection.
#[derive(Debug, PartialEq, Eq)]
pub enum IoAction {
    ReadExact { n: u16 },
    Dial { dest: Address },
    Relay,
    Close,
}

/// The mathematical shape of an I/O action.
pub enum IoModel {
    ReadExact { n: u16 },
    Dial { dest: AddressModel },
    Relay,
    Close,
}

impl View for IoAction {
    type V = IoModel;

    open spec fn view(&self) -> IoModel {
        match self {
            IoAction::ReadExact { n } => IoModel::ReadExact { n: *n },
            IoAction::Dial { dest } => IoModel::Dial { dest: dest@ },
            IoAction::Relay => IoModel::Relay,
            IoAction::Close => IoModel::Close,
        }
    }
}

/// What one step yields: the bytes to send to the client, then the next I/O
/// action to perform.
pub struct Output {
    pub write: Vec<u8>,
    pub io: IoAction,
}

/// The mathematical shape of one step's outcome.
pub struct StepModel {
    pub state: StateModel,
    pub write: Seq<u8>,
    pub io: IoModel,
}

/// The step that ends the session without sending a byte.
pub open spec fn spec_close_silently() -> StepModel {
    StepModel { state: StateModel::Done, write: Seq::empty(), io: IoModel::Close }
}

/// The step that sends a ten-byte failure reply and then ends the session.
pub open spec fn spec_close_with_failure(e: CommandError) -> StepModel {
    StepModel { state: StateModel::Done, write: spec_failure_reply(e), io: IoModel::Close }
}

/// The whole transition relation of a session, as a function of the server's
/// policy, the credentials table, the current state and the event.
///
/// An event that does not fit the current state — the wrong kind, or a byte
/// string of the wrong length — ends the session silently, as an I/O failure
/// does.
pub open spec fn spec_step(
    auth_required: bool,
    creds: Seq<(Seq<u8>, Seq<u8>)>,
    st: StateModel,
    ev: EventModel,
) -> StepModel {
    match (st, ev) {
        (StateModel::Greeting, EventModel::Bytes(b)) => {
            if b.len() != 2 {
                spec_close_silently()
            } else if b[0] != SOCKS_VERSION {
                spec_close_silently()
            } else {
                StepModel {
                    state: StateModel::MethodList { n: b[1] },
                    write: Seq::empty(),
                    io: IoModel::ReadExact { n: b[1] as u16 },
                }
            }
        },
        (StateModel::MethodList { n }, EventModel::Bytes(b)) => {
            if b.len() != n as int {
                spec_close_silently()
            } else {
                let m = spec_select(b, auth_required);
                if m == NO_ACCEPTABLE_METHOD {
                    StepModel {
                        state: StateModel::Done,
                        write: seq![SOCKS_VERSION, m],
                        io: IoModel::Close,
                    }
                } else if m == USER_PASS_METHOD {
                    StepModel {
                        state: StateModel::AuthHeader,
                        write: seq![SOCKS_VERSION, m],
                        io: IoModel::ReadExact { n: 2 },
                    }
                } else {
                    StepModel {
                        state: StateModel::Request,
                        write: seq![SOCKS_VERSION, m],
                        io: IoModel::ReadExact { n: 4 },
                    }
                }
            }
        },
        (StateModel::AuthHeader, EventModel::Bytes(b)) => {
            if b.len() != 2 {
                spec_close_silently()
            } else if b[0] != AUTH_VERSION {
                spec_close_silently()
            } else {
                StepModel {
                    state: StateModel::AuthUsername { ulen: b[1] },
                    write: Seq::empty(),
                    io: IoModel::ReadExact { n: b[1] as u16 },
                }
            }
        },
        (StateModel::AuthUsername { ulen }, EventModel::Bytes(b)) => {
            if b.len() != ulen as int {
                spec_close_silently()
            } else if !valid_utf8(b) {
                spec_close_silently()
            } else {
                StepModel {
                    state: StateModel::AuthPassLen { username: b },
                    write: Seq::empty(),
                    io: IoModel::ReadExact { n: 1 },
                }
            }
        },
        (StateModel::AuthPassLen { username }, EventModel::Bytes(b)) => {
            if b.len() != 1 {
                spec_close_silently()
            } else {
                StepModel {
                    state: StateModel::AuthPassword { username, plen: b[0] },
                    write: Seq::empty(),
                    io: IoModel::ReadExact { n: b[0] as u16 },
                }
            }
        },
        (StateModel::AuthPassword { username, plen }, EventModel::Bytes(b)) => {
            if b.len() != plen as int {
                spec_close_silently()
            } else if !valid_utf8(b) {
                spec_close_silently()
            } else if spec_creds_contain(creds, username, b) {
                StepModel {
                    state: StateModel::Request,
                    write: seq![AUTH_VERSION, 0x00u8],
                    io: IoModel::ReadExact { n: 4 },
                }
            } else {
                StepModel {
                    state: StateModel::Done,
                    write: seq![AUTH_VERSION, 0x01u8],
                    io: IoModel::Close,
                }
            }
        },
        (StateModel::Request, EventModel::Bytes(b)) => {
            if b.len() != 4 {
                spec_close_silently()
            } else if b[0] != SOCKS_VERSION {
                spec_close_silently()
            } else if b[1] != CONNECT_CMD {
                spec_close_with_failure(CommandError::UnsupportedCommand)
            } else if b[3] == IPV4_TYPE {
                StepModel {
                    state: StateModel::AddrV4,
                    write: Seq::empty(),
                    io: IoModel::ReadExact { n: 6 },
                }
            } else if b[3] == DOMAIN_TYPE {
                StepModel {
                    state: StateModel::DomainLen,
                    write: Seq::empty(),
                    io: IoModel::ReadExact { n: 1 },
                }
            } else if b[3] == IPV6_TYPE {
                StepModel {
                    state: StateModel::AddrV6,
                    write: Seq::empty(),
                    io: IoModel::ReadExact { n: 18 },
                }
            } else {
                spec_close_with_failure(CommandError::UnsupportedAddr)
            }
        },
        (StateModel::AddrV4, EventModel::Bytes(b)) => {
            if b.len() != 6 {
                spec_close_silently()
            } else {
                StepModel {
                    state: StateModel::Dialing,
                    write: Seq::empty(),
                    io: IoModel::Dial {
                        dest: AddressModel::Ipv4 { octets: b.take(4), port: spec_be16(b[4], b[5]) },
                    },
                }
            }
        },
        (StateModel::AddrV6, EventModel::Bytes(b)) => {
            if b.len() != 18 {
                spec_close_silently()
            } else {
                StepModel {
                    state: StateModel::Dialing,
                    write: Seq::empty(),
                    io: IoModel::Dial {
                        dest: AddressModel::Ipv6 {
                            octets: b.take(16),
                            port: spec_be16(b[16], b[17]),
                        },
                    },
                }
            }
        },
        (StateModel::DomainLen, EventModel::Bytes(b)) => {
            if b.len() != 1 {
                spec_close_silently()
            } else {
                StepModel {
                    state: StateModel::DomainBody { dlen: b[0] },
                    write: Seq::empty(),
                    io: IoModel::ReadExact { n: ((b[0] as int) + 2) as u16 },
                }
            }
        },
        (StateModel::DomainBody { dlen }, EventModel::Bytes(b)) => {
            if b.len() != (dlen as int) + 2 {
                spec_close_silently()
            } else if !valid_utf8(b.take(dlen as int)) {
                spec_close_with_failure(CommandError::ServerFailure)
            } else {
                StepModel {
                    state: StateModel::Dialing,
                    write: Seq::empty(),
                    io: IoModel::Dial {
                        dest: AddressModel::Domain {
                            name: b.take(dlen as int),
                            port: spec_be16(b[dlen as int], b[dlen as int + 1]),
                        },
                    },
                }
            }
        },
        (StateModel::Dialing, EventModel::DialSucceeded) => StepModel {
            state: StateModel::Relaying,
            write: spec_success_reply(),
            io: IoModel::Relay,
        },
        (StateModel::Dialing, EventModel::DialFailed) => spec_close_with_failure(
            CommandError::HostUnreachable,
        ),
        (StateModel::Relaying, EventModel::RelayFinished) => spec_close_silently(),
        _ => spec_close_silently(),
    }
}

/// On a fresh connection, a greeting whose first byte is not the SOCKS
/// version makes the session close without sending a single byte.
pub proof fn lemma_bad_version_closes_silently(
    auth_required: bool,
    creds: Seq<(Seq<u8>, Seq<u8>)>,
    b: Seq<u8>,
)
    requires
        b.len() == 2,
        b[0] != SOCKS_VERSION,
    ensures
        spec_step(auth_required, creds, StateModel::Greeting, EventModel::Bytes(b))
            == spec_close_silently(),
{
}

/// Once the upstream dial succeeds, the bytes sent are exactly the ten-byte
/// success reply, and the session moves on to relaying.
pub proof fn lemma_dial_success_reply(auth_required: bool, creds: Seq<(Seq<u8>, Seq<u8>)>)
    ensures
        ({
            let m = spec_step(auth_required, creds, StateModel::Dialing, EventModel::DialSucceeded);
            &&& m.write == spec_success_reply()
            &&& m.state == StateModel::Relaying
            &&& m.io == IoModel::Relay
        }),
{
}

/// For a well-formed IPv4 CONNECT whose dial succeeds, the only bytes the
/// client receives between its request and the start of the relay are the
/// ten-byte success reply: the request and address steps write nothing, and
/// the dial step writes exactly the success reply.
pub proof fn lemma_connect_ipv4_success_reply(
    auth_required: bool,
    creds: Seq<(Seq<u8>, Seq<u8>)>,
    reserved: u8,
    b: Seq<u8>,
)
    requires
        b.len() == 6,
    ensures
        ({
            let m1 = spec_step(
                auth_required,
                creds,
                StateModel::Request,
                EventModel::Bytes(seq![SOCKS_VERSION, CONNECT_CMD, reserved, IPV4_TYPE]),
            );
            let m2 = spec_step(auth_required, creds, m1.state, EventModel::Bytes(b));
            let m3 = spec_step(auth_required, creds, m2.state, EventModel::DialSucceeded);
            &&& m1.state == StateModel::AddrV4
            &&& m2.state == StateModel::Dialing
            &&& m3.state == StateModel::Relaying
            &&& m3.io == IoModel::Relay
            &&& m1.write + m2.write + m3.write =~= spec_success_reply()
        }),
{
}

/// The IPv6 counterpart of [`lemma_connect_ipv4_success_reply`].
pub proof fn lemma_connect_ipv6_success_reply(
    auth_required: bool,
    creds: Seq<(Seq<u8>, Seq<u8>)>,
    reserved: u8,
    b: Seq<u8>,
)
    requires
        b.len() == 18,
    ensures
        ({
            let m1 = spec_step(
                auth_required,
                creds,
                StateModel::Request,
                EventModel::Bytes(seq![SOCKS_VERSION, CONNECT_CMD, reserved, IPV6_TYPE]),
            );
            let m2 = spec_step(auth_required, creds, m1.state, EventModel::Bytes(b));
            let m3 = spec_step(auth_required, creds, m2.state, EventModel::DialSucceeded);
            &&& m1.state == StateModel::AddrV6
            &&& m2.state == StateModel::Dialing
            &&& m3.state == StateModel::Relaying
            &&& m3.io == IoModel::Relay
            &&& m1.write + m2.write + m3.write =~= spec_success_reply()
        }),
{
}

/// The domain counterpart of [`lemma_connect_ipv4_success_reply`]: for a
/// CONNECT to a valid UTF-8 domain name whose dial succeeds, the only bytes
/// the client receives between its request and the start of the relay are
/// the ten-byte success reply.
pub proof fn lemma_connect_domain_success_reply(
    auth_required: bool,
    creds: Seq<(Seq<u8>, Seq<u8>)>,
    reserved: u8,
    dlen: u8,
    b: Seq<u8>,
)
    requires
        b.len() == dlen as int + 2,
        valid_utf8(b.take(dlen as int)),
    ensures
        ({
            let m1 = spec_step(
                auth_required,
                creds,
                StateModel::Request,
                EventModel::Bytes(seq![SOCKS_VERSION, CONNECT_CMD, reserved, DOMAIN_TYPE]),
            );
            let m2 = spec_step(auth_required, creds, m1.state, EventModel::Bytes(seq![dlen]));
            let m3 = spec_step(auth_required, creds, m2.state, EventModel::Bytes(b));
            let m4 = spec_step(auth_required, creds, m3.state, EventModel::DialSucceeded);
            &&& m1.state == StateModel::DomainLen
            &&& m2.state == (StateModel::DomainBody { dlen })
            &&& m3.state == StateModel::Dialing
            &&& m4.state == StateModel::Relaying
            &&& m4.io == IoModel::Relay
            &&& m1.write + m2.write + m3.write + m4.write =~= spec_success_reply()
        }),
{
}

/// A request whose address-type byte is none of IPv4, domain or IPv6 draws a
/// reply whose second byte is `0x08`, and the session closes.
pub proof fn lemma_unsupported_addr_reply(
    auth_required: bool,
    creds: Seq<(Seq<u8>, Seq<u8>)>,
    b: Seq<u8>,
)
    requires
        b.len() == 4,
        b[0] == SOCKS_VERSION,
        b[1] == CONNECT_CMD,
        b[3] != IPV4_TYPE && b[3] != DOMAIN_TYPE && b[3] != IPV6_TYPE,
    ensures
        ({
            let m = spec_step(auth_required, creds, StateModel::Request, EventModel::Bytes(b));
            &&& m.write.len() == 10
            &&& m.write[1] == 0x08
            &&& m.write == spec_failure_reply(CommandError::UnsupportedAddr)
            &&& m.state == StateModel::Done
            &&& m.io == IoModel::Close
        }),
{
}

/// A request whose command byte is not CONNECT draws a reply whose second
/// byte is `0x07`, and the session closes.
pub proof fn lemma_unsupported_command_reply(
    auth_required: bool,
    creds: Seq<(Seq<u8>, Seq<u8>)>,
    b: Seq<u8>,
)
    requires
        b.len() == 4,
        b[0] == SOCKS_VERSION,
        b[1] != CONNECT_CMD,
    ensures
        ({
            let m = spec_step(auth_required, creds, StateModel::Request, EventModel::Bytes(b));
            &&& m.write.len() == 10
            &&& m.write[1] == 0x07
            &&& m.write == spec_failure_reply(CommandError::UnsupportedCommand)
            &&& m.state == StateModel::Done
            &&& m.io == IoModel::Close
        }),
{
}

/// Every byte string a step can send either is empty, starts with the SOCKS
/// version byte, or is a two-byte sub-negotiation status starting with the
/// auth version byte; so the session never writes a SOCKS reply whose first
/// byte is not 0x05.
pub proof fn lemma_write_first_byte(
    auth_required: bool,
    creds: Seq<(Seq<u8>, Seq<u8>)>,
    st: StateModel,
    ev: EventModel,
)
    ensures
        ({
            let w = spec_step(auth_required, creds, st, ev).write;
            ||| w.len() == 0
            ||| w[0] == SOCKS_VERSION
            ||| (w.len() == 2 && w[0] == AUTH_VERSION && (st is AuthPassword))
        }),
{
}

/// The success reply is sent exactly when the dial succeeded: no other state
/// and event make a step relay, and none make it write the success reply.
pub proof fn lemma_success_only_after_dial(
    auth_required: bool,
    creds: Seq<(Seq<u8>, Seq<u8>)>,
    st: StateModel,
    ev: EventModel,
)
    ensures
        ({
            let m = spec_step(auth_required, creds, st, ev);
            &&& (m.io == IoModel::Relay <==> (st == StateModel::Dialing
                && ev == EventModel::DialSucceeded))
            &&& (m.write == spec_success_reply() <==> (st == StateModel::Dialing
                && ev == EventModel::DialSucceeded))
        }),
{
    let m = spec_step(auth_required, creds, st, ev);
    if m.write == spec_success_reply() {
        assert(m.write.len() == 10 && m.write[1] == 0x00);
        if st is Request && ev is Bytes {
            assert(st == StateModel::Dialing && ev == EventModel::DialSucceeded);
        }
    }
}

/// A done session is terminal: whatever event arrives, it sends nothing and
/// stays done.
pub proof fn lemma_done_is_terminal(
    auth_required: bool,
    creds: Seq<(Seq<u8>, Seq<u8>)>,
    ev: EventModel,
)
    ensures
        spec_step(auth_required, creds, StateModel::Done, ev) == spec_close_silently(),
{
}

/// A step that sends a ten-byte reply ends the negotiation: it leaves the
/// session done or relaying, and neither a relaying nor a done session ever
/// sends another byte. So the success reply and a failure reply are each
/// sent at most once per session.
pub proof fn lemma_reply_ends_negotiation(
    auth_required: bool,
    creds: Seq<(Seq<u8>, Seq<u8>)>,
    st: StateModel,
    ev: EventModel,
)
    ensures
        ({
            let m = spec_step(auth_required, creds, st, ev);
            m.write.len() == 10 ==> m.state == StateModel::Done || m.state == StateModel::Relaying
        }),
        spec_step(auth_required, creds, StateModel::Relaying, ev).write.len() == 0,
        spec_step(auth_required, creds, StateModel::Done, ev).write.len() == 0,
{
}

/// Every destination a step asks the driver to dial is well formed: four
/// octets for IPv4, sixteen for IPv6, and for a domain a valid UTF-8 name of
/// at most 255 bytes.
pub proof fn lemma_dial_addr_wf(
    auth_required: bool,
    creds: Seq<(Seq<u8>, Seq<u8>)>,
    st: StateModel,
    ev: EventModel,
)
    ensures
        ({
            let m = spec_step(auth_required, creds, st, ev);
            m.io matches IoModel::Dial { dest } ==> spec_addr_wf(dest)
        }),
{
}

/// Relies on core::str::from_utf8: it returns `Ok` exactly when the bytes
/// are a valid UTF-8 encoding.
#[verifier::external_body]
fn utf8_check(b: &Vec<u8>) -> (r: bool)
    ensures
        r == valid_utf8(b@),
{
    core::str::from_utf8(b.as_slice()).is_ok()
}

/// One client session: the server's credentials table (absent when the
/// policy is "no authentication required") and the current protocol state.
pub struct Session {
    pub creds: Option<Vec<Credential>>,
    pub state: State,
}

impl Session {
    /// Whether the server's policy requires username/password authentication.
    pub open spec fn auth_required(&self) -> bool {
        self.creds is Some
    }

    /// The credentials table as a sequence of (username, password) pairs of
    /// byte strings; empty when no table was given.
    pub open spec fn creds_model(&self) -> Seq<(Seq<u8>, Seq<u8>)> {
        match self.creds {
            Some(v) => v@.map_values(|c: Credential| c@),
            None => Seq::empty(),
        }
    }

    /// A fresh session awaiting the client's greeting.
    pub fn new(creds: Option<Vec<Credential>>) -> (s: Session)
        ensures
            s.state@ == StateModel::Greeting,
            s.creds == creds,
    {
        Session { creds, state: State::Greeting }
    }

    /// The I/O the driver performs before the first event: reading the two
    /// greeting bytes.
    pub fn initial_io() -> (a: IoAction)
        ensures
            a@ == (IoModel::ReadExact { n: 2 }),
    {
        IoAction::ReadExact { n: 2 }
    }

    /// Advances the session by one event. The new state, the bytes to send
    /// and the next I/O action are exactly those of [`spec_step`].
    pub fn step(&mut self, event: Event) -> (out: Output)
        ensures
            final(self).creds == old(self).creds,
            ({
                let m = spec_step(
                    old(self).auth_required(),
                    old(self).creds_model(),
                    old(self).state@,
                    event@,
                );
                &&& final(self).state@ == m.state
                &&& out.write@ == m.write
                &&& out.io@ == m.io
            }),
    {
        let mut st = State::Done;
        core::mem::swap(&mut st, &mut self.state);
        match (st, event) {
            (State::Greeting, Event::Bytes(b)) => {
                if b.len() != 2 || b[0] != SOCKS_VERSION {
                    Output { write: Vec::new(), io: IoAction::Close }
                } else {
                    let n = b[1];
                    self.state = State::MethodList { n };
                    Output { write: Vec::new(), io: IoAction::ReadExact { n: n as u16 } }
                }
            },
            (State::MethodList { n }, Event::Bytes(b)) => {
                if b.len() != n as usize {
                    Output { write: Vec::new(), io: IoAction::Close }
                } else {
                    let auth_required = self.creds.is_some();
                    let m = select_method(&b, auth_required);
                    let mut w: Vec<u8> = Vec::new();
                    w.push(SOCKS_VERSION);
                    w.push(m);
                    assert(w@ =~= seq![SOCKS_VERSION, m]);
                    if m == NO_ACCEPTABLE_METHOD {
                        Output { write: w, io: IoAction::Close }
                    } else if m == USER_PASS_METHOD {
                        self.state = State::AuthHeader;
                        Output { write: w, io: IoAction::ReadExact { n: 2 } }
                    } else {
                        self.state = State::Request;
                        Output { write: w, io: IoAction::ReadExact { n: 4 } }
                    }
                }
            },
            (State::AuthHeader, Event::Bytes(b)) => {
                if b.len() != 2 || b[0] != AUTH_VERSION {
                    Output { write: Vec::new(), io: IoAction::Close }
                } else {
                    let ulen = b[1];
                    self.state = State::AuthUsername { ulen };
                    Output { write: Vec::new(), io: IoAction::ReadExact { n: ulen as u16 } }
                }
            },
            (State::AuthUsername { ulen }, Event::Bytes(b)) => {
                if b.len() != ulen as usize || !utf8_check(&b) {
                    Output { write: Vec::new(), io: IoAction::Close }
                } else {
                    self.state = State::AuthPassLen { username: b };
                    Output { write: Vec::new(), io: IoAction::ReadExact { n: 1 } }
                }
            },
            (State::AuthPassLen { username }, Event::Bytes(b)) => {
                if b.len() != 1 {
                    Output { write: Vec::new(), io: IoAction::Close }
                } else {
                    let plen = b[0];
                    self.state = State::AuthPassword { username, plen };
                    Output { write: Vec::new(), io: IoAction::ReadExact { n: plen as u16 } }
                }
            },
            (State::AuthPassword { username, plen }, Event::Bytes(b)) => {
                if b.len() != plen as usize || !utf8_check(&b) {
                    Output { write: Vec::new(), io: IoAction::Close }
                } else {
                    let ok = match &self.creds {
                        Some(cv) => check_credentials(cv, &username, &b),
                        None => false,
                    };
                    let mut w: Vec<u8> = Vec::new();
                    w.push(AUTH_VERSION);
                    if ok {
                        w.push(0x00);
                        assert(w@ =~= seq![AUTH_VERSION, 0x00u8]);
                        self.state = State::Request;
                        Output { write: w, io: IoAction::ReadExact { n: 4 } }
                    } else {
                        w.push(0x01);
                        assert(w@ =~= seq![AUTH_VERSION, 0x01u8]);
                        Output { write: w, io: IoAction::Close }
                    }
                }
            },
            (State::Request, Event::Bytes(b)) => {
                if b.len() != 4 || b[0] != SOCKS_VERSION {
                    Output { write: Vec::new(), io: IoAction::Close }
                } else if b[1] != CONNECT_CMD {
                    Output {
                        write: encode_failure_reply(CommandError::UnsupportedCommand),
                        io: IoAction::Close,
                    }
                } else if b[3] == IPV4_TYPE {
                    self.state = State::AddrV4;
                    Output { write: Vec::new(), io: IoAction::ReadExact { n: 6 } }
                } else if b[3] == DOMAIN_TYPE {
                    self.state = State::DomainLen;
                    Output { write: Vec::new(), io: IoAction::ReadExact { n: 1 } }
                } else if b[3] == IPV6_TYPE {
                    self.state = State::AddrV6;
                    Output { write: Vec::new(), io: IoAction::ReadExact { n: 18 } }
                } else {
                    Output {
                        write: encode_failure_reply(CommandError::UnsupportedAddr),
                        io: IoAction::Close,
                    }
                }
            },
            (State::AddrV4, Event::Bytes(b)) => {
                if b.len() != 6 {
                    Output { write: Vec::new(), io: IoAction::Close }
                } else {
                    let octets = take_bytes(&b, 4);
                    let port = be16(b[4], b[5]);
                    self.state = State::Dialing;
                    Output {
                        write: Vec::new(),
                        io: IoAction::Dial { dest: Address::Ipv4 { octets, port } },
                    }
                }
            },
            (State::AddrV6, Event::Bytes(b)) => {
                if b.len() != 18 {
                    Output { write: Vec::new(), io: IoAction::Close }
                } else {
                    let octets = take_bytes(&b, 16);
                    let port = be16(b[16], b[17]);
                    self.state = State::Dialing;
                    Output {
                        write: Vec::new(),
                        io: IoAction::Dial { dest: Address::Ipv6 { octets, port } },
                    }
                }
            },
            (State::DomainLen, Event::Bytes(b)) => {
                if b.len() != 1 {
                    Output { write: Vec::new(), io: IoAction::Close }
                } else {
                    let dlen = b[0];
                    self.state = State::DomainBody { dlen };
                    Output {
                        write: Vec::new(),
                        io: IoAction::ReadExact { n: (dlen as u16) + 2 },
                    }
                }
            },
            (State::DomainBody { dlen }, Event::Bytes(b)) => {
                if b.len() != (dlen as usize) + 2 {
                    Output { write: Vec::new(), io: IoAction::Close }
                } else {
                    let name = take_bytes(&b, dlen as usize);
                    if !utf8_check(&name) {
                        Output {
                            write: encode_failure_reply(CommandError::ServerFailure),
                            io: IoAction::Close,
                        }
                    } else {
                        let port = be16(b[dlen as usize], b[(dlen as usize) + 1]);
                        self.state = State::Dialing;
                        Output {
                            write: Vec::new(),
                            io: IoAction::Dial { dest: Address::Domain { name, port } },
                        }
                    }
                }
            },
            (State::Dialing, Event::DialSucceeded) => {
                self.state = State::Relaying;
                Output { write: encode_success_reply(), io: IoAction::Relay }
            },
            (State::Dialing, Event::DialFailed) => {
                Output {
                    write: encode_failure_reply(CommandError::HostUnreachable),
                    io: IoAction::Close,
                }
            },
            (State::Relaying, Event::RelayFinished) => {
                Output { write: Vec::new(), io: IoAction::Close }
            },
            _ => Output { write: Vec::new(), io: IoAction::Close },
        }
    }
}

} // verus!
