//! The username and password sub-negotiation of RFC 1929, as both sides
//! read and write it.

use vstd::prelude::*;
use crate::error::{short_by, ErrorView};

verus! {

/// The version byte of the sub-negotiation.
pub const AUTH_VERSION: u8 = 0x01;

/// The status byte that accepts the credentials.
pub const AUTH_SUCCESS: u8 = 0x00;

/// The status byte that this crate sends to refuse them. A client takes
/// any byte but `AUTH_SUCCESS` as a refusal.
pub const AUTH_FAILURE: u8 = 0x01;

/// The message VER | ULEN | UNAME | PLEN | PASSWD of a pair of at most 255
/// bytes each.
pub open spec fn encode_credentials(username: Seq<u8>, password: Seq<u8>) -> Seq<u8> {
    seq![AUTH_VERSION, username.len() as u8] + username + seq![password.len() as u8] + password
}

/// What reading a pair of credentials from the front of `s` gives: the
/// username, the password and the number of bytes they took, or the error.
pub open spec fn parse_credentials(s: Seq<u8>) -> Result<(Seq<u8>, Seq<u8>, nat), ErrorView> {
    if s.len() < 1 {
        Err(short_by(1))
    } else if s[0] != AUTH_VERSION {
        Err(ErrorView::VersionNotSupported(s[0]))
    } else if s.len() < 2 {
        Err(short_by(1))
    } else {
        let ulen = s[1] as int;
        if s.len() < 2 + ulen {
            Err(short_by(2 + ulen - s.len()))
        } else if s.len() < 3 + ulen {
            Err(short_by(1))
        } else {
            let plen = s[2 + ulen] as int;
            if s.len() < 3 + ulen + plen {
                Err(short_by(3 + ulen + plen - s.len()))
            } else {
                Ok(
                    (
                        s.subrange(2, 2 + ulen),
                        s.subrange(3 + ulen, 3 + ulen + plen),
                        (3 + ulen + plen) as nat,
                    ),
                )
            }
        }
    }
}

/// The message VER | STATUS that answers a pair of credentials.
pub open spec fn encode_status(accepted: bool) -> Seq<u8> {
    seq![
        AUTH_VERSION,
        if accepted {
            AUTH_SUCCESS
        } else {
            AUTH_FAILURE
        },
    ]
}

/// What reading an answer from the front of `s` gives: whether the
/// credentials were accepted, or the error.
pub open spec fn parse_status(s: Seq<u8>) -> Result<bool, ErrorView> {
    if s.len() < 1 {
        Err(short_by(1))
    } else if s[0] != AUTH_VERSION {
        Err(ErrorView::VersionNotSupported(s[0]))
    } else if s.len() < 2 {
        Err(short_by(1))
    } else {
        Ok(s[1] == AUTH_SUCCESS)
    }
}

/// A pair of credentials of at most 255 bytes each is read back as it was,
/// whatever follows it.
pub proof fn credentials_round_trip(username: Seq<u8>, password: Seq<u8>, rest: Seq<u8>)
    requires
        username.len() <= 255,
        password.len() <= 255,
    ensures
        parse_credentials(encode_credentials(username, password) + rest) matches Ok(
            (name, word, taken),
        ) && name == username && word == password && taken == encode_credentials(
            username,
            password,
        ).len(),
{
    let s = encode_credentials(username, password) + rest;
    let ulen = username.len() as int;
    let plen = password.len() as int;
    assert(s[0] == AUTH_VERSION);
    assert(s[1] == ulen);
    assert(s[2 + ulen] == plen);
    assert(s.subrange(2, 2 + ulen) =~= username);
    assert(s.subrange(3 + ulen, 3 + ulen + plen) =~= password);
}

/// An answer is read back as it was.
pub proof fn status_round_trip(accepted: bool)
    ensures
        parse_status(encode_status(accepted)) matches Ok(read) && read == accepted,
{
}

/// Whether two slices hold the same bytes.
pub fn bytes_eq(a: &[u8], b: &[u8]) -> (same: bool)
    ensures
        same == (a@ == b@),
{
    if a.len() != b.len() {
        return false;
    }
    let mut i: usize = 0;
    while i < a.len()
        invariant
            i <= a@.len(),
            a@.len() == b@.len(),
            forall|j: int| 0 <= j < i ==> a@[j] == b@[j],
        decreases a@.len() - i,
    {
        if a[i] != b[i] {
            return false;
        }
        i = i + 1;
    }
    assert(a@ =~= b@);
    true
}

} // verus!
