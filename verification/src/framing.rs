//! Why a message can be read as it arrives.
//!
//! A decoder that finds its input short says how many bytes it lacks, and
//! its caller reads that many and tries again. For every message of this
//! protocol, three things make that sound: a message that was read is not
//! changed by what follows it, an error that was found is not undone by
//! what follows, and a decoder never asks for a byte beyond the message
//! it is reading.

use vstd::prelude::*;
use crate::addr::{parse_addr, TargetAddrView};
use crate::error::{ErrorView, IoErrorKind};
use crate::request::{parse_methods_request, parse_request};
use crate::response::{parse_methods_response, parse_response};
use crate::subnegotiation::{parse_credentials, parse_status};

verus! {

/// What it means that the outcome `longer`, on an input that some bytes
/// were added to, goes on from the outcome `shorter` on the input of
/// `len` bytes as it was, where `taken` gives the number of bytes that a
/// value took.
pub open spec fn goes_on<T>(
    shorter: Result<T, ErrorView>,
    longer: Result<T, ErrorView>,
    len: nat,
    taken: spec_fn(T) -> nat,
) -> bool {
    match shorter {
        Ok(value) => taken(value) <= len && longer == shorter,
        Err(ErrorView::IoError(IoErrorKind::UnexpectedEof(missing))) => missing >= 1 && (
        longer matches Ok(value) ==> taken(value) >= len + missing),
        Err(_) => longer == shorter,
    }
}

/// An address triple can be read as it arrives.
pub proof fn addr_goes_on(s: Seq<u8>, t: Seq<u8>)
    ensures
        goes_on(parse_addr(s), parse_addr(s + t), s.len(), |v: (TargetAddrView, nat)| v.1),
{
    let u = s + t;
    if s.len() >= 1 {
        assert(u[0] == s[0]);
        if s[0] == 0x03 && s.len() >= 2 {
            let n = s[1] as int;
            assert(u[1] == s[1]);
            if s.len() >= 2 + n {
                assert(u.subrange(2, 2 + n) =~= s.subrange(2, 2 + n));
                if s.len() >= 4 + n {
                    assert(u[2 + n] == s[2 + n]);
                    assert(u[3 + n] == s[3 + n]);
                }
            }
        } else if s[0] == 0x01 && s.len() >= 7 {
            assert(crate::addr::ipv4_at(u, 1) =~= crate::addr::ipv4_at(s, 1));
            assert(u[5] == s[5] && u[6] == s[6]);
        } else if s[0] == 0x04 && s.len() >= 19 {
            assert(crate::addr::ipv6_at(u, 1) =~= crate::addr::ipv6_at(s, 1));
            assert(u[17] == s[17] && u[18] == s[18]);
        }
    }
}

/// An offer of methods can be read as it arrives.
pub proof fn methods_request_goes_on(s: Seq<u8>, t: Seq<u8>)
    ensures
        goes_on(
            parse_methods_request(s),
            parse_methods_request(s + t),
            s.len(),
            |v: (crate::request::AuthMethodsRequestView, nat)| v.1,
        ),
{
    let u = s + t;
    if s.len() >= 1 {
        assert(u[0] == s[0]);
    }
    if s.len() >= 2 {
        assert(u[1] == s[1]);
        let n = s[1] as int;
        let arrived = if s.len() - 2 < n {
            s.len() - 2
        } else {
            n
        };
        let arrived_then = if u.len() - 2 < n {
            u.len() - 2
        } else {
            n
        };
        assert(arrived <= arrived_then);
        if exists|k: int| 2 <= k < 2 + arrived && s[k] == 0xff {
            let k = choose|k: int| 2 <= k < 2 + arrived && s[k] == 0xff;
            assert(u[k] == 0xff);
        } else if arrived == n && crate::Version::parse(s[0]) is Ok {
            assert forall|k: int| 2 <= k < 2 + arrived_then implies u[k] != 0xff by {
                assert(u[k] == s[k]);
            }
            assert(parse_methods_request(u) is Ok);
            assert(parse_methods_request(u)->Ok_0.0.methods =~= parse_methods_request(
                s,
            )->Ok_0.0.methods);
        }
    }
}

/// A choice of method can be read as it arrives.
pub proof fn methods_response_goes_on(s: Seq<u8>, t: Seq<u8>)
    ensures
        goes_on(
            parse_methods_response(s),
            parse_methods_response(s + t),
            s.len(),
            |v: (crate::response::AuthMethodsResponse, nat)| v.1,
        ),
{
    let u = s + t;
    if s.len() >= 1 {
        assert(u[0] == s[0]);
    }
    if s.len() >= 2 {
        assert(u[1] == s[1]);
    }
}

/// A request can be read as it arrives.
pub proof fn request_goes_on(s: Seq<u8>, t: Seq<u8>)
    ensures
        goes_on(
            parse_request(s),
            parse_request(s + t),
            s.len(),
            |v: (crate::request::RequestView, nat)| v.1,
        ),
{
    let u = s + t;
    if s.len() >= 1 {
        assert(u[0] == s[0]);
    }
    if s.len() >= 2 {
        assert(u[1] == s[1]);
    }
    if s.len() >= 3 {
        assert(u.skip(3) =~= s.skip(3) + t);
        addr_goes_on(s.skip(3), t);
    }
}

/// A reply can be read as it arrives.
pub proof fn response_goes_on(s: Seq<u8>, t: Seq<u8>)
    ensures
        goes_on(
            parse_response(s),
            parse_response(s + t),
            s.len(),
            |v: (crate::response::ResponseView, nat)| v.1,
        ),
{
    let u = s + t;
    if s.len() >= 1 {
        assert(u[0] == s[0]);
    }
    if s.len() >= 2 {
        assert(u[1] == s[1]);
    }
    if s.len() >= 3 {
        assert(u.skip(3) =~= s.skip(3) + t);
        addr_goes_on(s.skip(3), t);
    }
}

/// A pair of credentials can be read as it arrives.
pub proof fn credentials_go_on(s: Seq<u8>, t: Seq<u8>)
    ensures
        goes_on(
            parse_credentials(s),
            parse_credentials(s + t),
            s.len(),
            |v: (Seq<u8>, Seq<u8>, nat)| v.2,
        ),
{
    let u = s + t;
    if s.len() >= 1 {
        assert(u[0] == s[0]);
    }
    if s.len() >= 2 {
        assert(u[1] == s[1]);
        let ulen = s[1] as int;
        if s.len() >= 3 + ulen {
            assert(u[2 + ulen] == s[2 + ulen]);
            let plen = s[2 + ulen] as int;
            if s.len() >= 3 + ulen + plen {
                assert(u.subrange(2, 2 + ulen) =~= s.subrange(2, 2 + ulen));
                assert(u.subrange(3 + ulen, 3 + ulen + plen) =~= s.subrange(
                    3 + ulen,
                    3 + ulen + plen,
                ));
            }
        }
    }
}

/// The answer to a pair of credentials, which takes two bytes, can be
/// read as it arrives.
pub proof fn status_goes_on(s: Seq<u8>, t: Seq<u8>)
    ensures
        goes_on(parse_status(s), parse_status(s + t), s.len(), |accepted: bool| 2nat),
{
    let u = s + t;
    if s.len() >= 1 {
        assert(u[0] == s[0]);
    }
    if s.len() >= 2 {
        assert(u[1] == s[1]);
    }
}

} // verus!
