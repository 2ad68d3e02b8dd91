//! Method negotiation: the three authentication methods the wire protocol
//! distinguishes, and the rule that selects one from the client's list.

use vstd::prelude::*;

verus! {

/// The method byte offering no authentication.
pub const NO_AUTH_METHOD: u8 = 0x00;
/// The method byte offering username/password authentication.
pub const USER_PASS_METHOD: u8 = 0x02;
/// The method byte meaning that no offered method is acceptable.
pub const NO_ACCEPTABLE_METHOD: u8 = 0xFF;

/// An authentication method as it appears during negotiation. Any wire byte
/// other than `0x00` and `0x02` is treated as unacceptable.
#[derive(Clone, Copy, Debug, PartialEq, Eq, Structural)]
pub enum Method {
    NoAuth,
    UserPass,
    NoAcceptable,
}

/// The method denoted by a wire byte.
pub open spec fn spec_method_of(b: u8) -> Method {
    if b == NO_AUTH_METHOD {
        Method::NoAuth
    } else if b == USER_PASS_METHOD {
        Method::UserPass
    } else {
        Method::NoAcceptable
    }
}

/// The wire byte denoting a method.
pub open spec fn spec_method_byte(m: Method) -> u8 {
    match m {
        Method::NoAuth => NO_AUTH_METHOD,
        Method::UserPass => USER_PASS_METHOD,
        Method::NoAcceptable => NO_ACCEPTABLE_METHOD,
    }
}

impl From<u8> for Method {
    fn from(val: u8) -> (r: Self)
        ensures
            r == spec_method_of(val),
    {
        match val {
            NO_AUTH_METHOD => Method::NoAuth,
            USER_PASS_METHOD => Method::UserPass,
            _ => Method::NoAcceptable,
        }
    }
}

impl vstd::std_specs::convert::FromSpecImpl<u8> for Method {
    open spec fn obeys_from_spec() -> bool {
        true
    }

    open spec fn from_spec(v: u8) -> Method {
        spec_method_of(v)
    }
}

impl Method {
    /// The wire byte for this method.
    pub fn byte(&self) -> (r: u8)
        ensures
            r == spec_method_byte(*self),
    {
        match self {
            Method::NoAuth => NO_AUTH_METHOD,
            Method::UserPass => USER_PASS_METHOD,
            Method::NoAcceptable => NO_ACCEPTABLE_METHOD,
        }
    }
}

/// Whether the server's policy accepts a method byte offered by the client:
/// exactly `0x00` when no authentication is required, exactly `0x02` when
/// username/password is required.
pub open spec fn spec_accepts(b: u8, auth_required: bool) -> bool {
    if auth_required {
        b == USER_PASS_METHOD
    } else {
        b == NO_AUTH_METHOD
    }
}

/// The selection rule: the first offered byte the policy accepts, or `0xFF`
/// when none is acceptable.
pub open spec fn spec_select(methods: Seq<u8>, auth_required: bool) -> u8
    decreases methods.len(),
{
    if methods.len() == 0 {
        NO_ACCEPTABLE_METHOD
    } else if spec_accepts(methods[0], auth_required) {
        methods[0]
    } else {
        spec_select(methods.skip(1), auth_required)
    }
}

/// Scans the client's method list in order and picks the first byte the
/// policy accepts, or `0xFF` when none is acceptable.
pub fn select_method(methods: &Vec<u8>, auth_required: bool) -> (r: u8)
    ensures
        r == spec_select(methods@, auth_required),
{
    let n = methods.len();
    let mut i: usize = 0;
    assert(methods@.skip(0) =~= methods@);
    while i < n
        invariant
            n == methods@.len(),
            0 <= i <= n,
            spec_select(methods@.skip(i as int), auth_required) == spec_select(
                methods@,
                auth_required,
            ),
        decreases n - i,
    {
        let b = methods[i];
        if auth_required && b == USER_PASS_METHOD || !auth_required && b == NO_AUTH_METHOD {
            assert(methods@.skip(i as int)[0] == b);
            return b;
        }
        assert(methods@.skip(i as int).skip(1) =~= methods@.skip(i as int + 1));
        i += 1;
    }
    assert(methods@.skip(n as int) =~= Seq::<u8>::empty());
    NO_ACCEPTABLE_METHOD
}

/// The selection rule is deterministic: the same method list under the same
/// policy always yields the same selection.
pub proof fn lemma_select_deterministic(a: Seq<u8>, b: Seq<u8>, auth_required: bool)
    requires
        a == b,
    ensures
        spec_select(a, auth_required) == spec_select(b, auth_required),
{
}

} // verus!
