//! The credentials table and its byte-exact lookup, used by the
//! username/password sub-negotiation.

use vstd::prelude::*;

verus! {

/// One valid (username, password) pair, each held as the exact bytes that
/// appear on the wire.
#[derive(Clone, Debug)]
pub struct Credential {
    pub username: Vec<u8>,
    pub password: Vec<u8>,
}

impl View for Credential {
    type V = (Seq<u8>, Seq<u8>);

    open spec fn view(&self) -> (Seq<u8>, Seq<u8>) {
        (self.username@, self.password@)
    }
}

/// Whether the table holds a pair whose username and password both match
/// byte for byte.
pub open spec fn spec_creds_contain(creds: Seq<(Seq<u8>, Seq<u8>)>, user: Seq<u8>, pass: Seq<u8>) -> bool {
    exists|i: int| 0 <= i < creds.len() && creds[i].0 == user && creds[i].1 == pass
}

/// Compares two byte strings for exact equality.
pub fn bytes_eq(a: &Vec<u8>, b: &Vec<u8>) -> (r: bool)
    ensures
        r == (a@ == b@),
{
    if a.len() != b.len() {
        return false;
    }
    let n = a.len();
    let mut i: usize = 0;
    while i < n
        invariant
            n == a@.len() == b@.len(),
            0 <= i <= n,
            forall|j: int| 0 <= j < i ==> a@[j] == b@[j],
        decreases n - i,
    {
        if a[i] != b[i] {
            return false;
        }
        i += 1;
    }
    assert(a@ =~= b@);
    true
}

/// Looks the pair up in the table; the match is byte-exact.
pub fn check_credentials(creds: &Vec<Credential>, user: &Vec<u8>, pass: &Vec<u8>) -> (r: bool)
    ensures
        r == spec_creds_contain(creds@.map_values(|c: Credential| c@), user@, pass@),
{
    let ghost model = creds@.map_values(|c: Credential| c@);
    let n = creds.len();
    let mut i: usize = 0;
    while i < n
        invariant
            n == creds@.len(),
            model == creds@.map_values(|c: Credential| c@),
            0 <= i <= n,
            forall|j: int| 0 <= j < i ==> !(model[j].0 == user@ && model[j].1 == pass@),
        decreases n - i,
    {
        if bytes_eq(&creds[i].username, user) && bytes_eq(&creds[i].password, pass) {
            assert(model[i as int].0 == user@ && model[i as int].1 == pass@);
            return true;
        }
        i += 1;
    }
    false
}

} // verus!
