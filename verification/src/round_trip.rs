//! What holds of the codec as a whole: a message that was written is read
//! back as it was, an address takes the bytes that its length says, and a
//! byte that stands for nothing is refused by name.

use vstd::prelude::*;
use vstd::utf8::{encode_utf8_decode_utf8, encode_utf8_valid_utf8};
use crate::addr::{
    domain_bytes, encodable, encode_addr, ipv4_at, ipv6_at, parse_addr, serialized_len, Addr,
    SocketEndpoint, TargetAddrView,
};
use crate::buf::be16;
use crate::error::ErrorView;
use crate::reader::be16_round_trip;
use crate::request::{
    encode_methods_request, encode_request, parse_methods_request, parse_request,
    AuthMethodsRequest, Request,
};
use crate::response::{
    encode_methods_response, encode_response, parse_methods_response, parse_response,
    AuthMethodsResponse, Response,
};
use crate::AuthMethod;

verus! {

/// The address triple of a target that can be encoded has as many bytes
/// as `serialize_len` says.
pub proof fn serialize_len_is_encoded_len(addr: Addr)
    requires
        encodable(addr@),
    ensures
        encode_addr(addr@).len() == serialized_len(addr@),
{
}

/// An address triple is read back as the target it was made from,
/// whatever bytes follow it, and the read takes just the triple.
pub proof fn addr_round_trip(addr: Addr, rest: Seq<u8>)
    requires
        encodable(addr@),
    ensures
        parse_addr(encode_addr(addr@) + rest) matches Ok((target, taken)) && target == addr@
            && taken == serialized_len(addr@),
{
    let s = encode_addr(addr@) + rest;
    match addr@ {
        TargetAddrView::Host(domain, port) => {
            let name = domain_bytes(domain);
            let n = name.len() as int;
            be16_round_trip(port);
            encode_utf8_valid_utf8(domain);
            encode_utf8_decode_utf8(domain);
            assert(s[0] == 0x03);
            assert(s[1] == n);
            assert(s.subrange(2, 2 + n) =~= name);
            assert(s[2 + n] == be16(port)[0]);
            assert(s[3 + n] == be16(port)[1]);
        },
        TargetAddrView::Addr(SocketEndpoint::V4(ip, port)) => {
            be16_round_trip(port);
            assert(s[0] == 0x01);
            assert(ipv4_at(s, 1) =~= ip);
            assert(s[5] == be16(port)[0]);
            assert(s[6] == be16(port)[1]);
        },
        TargetAddrView::Addr(SocketEndpoint::V6(ip, port)) => {
            be16_round_trip(port);
            assert(s[0] == 0x04);
            assert(ipv6_at(s, 1) =~= ip);
            assert(s[17] == be16(port)[0]);
            assert(s[18] == be16(port)[1]);
        },
    }
}

/// An offer of at most 255 valid methods is read back as it was.
pub proof fn methods_request_round_trip(request: AuthMethodsRequest)
    requires
        request.methods@.len() <= 255,
        forall|i: int| 0 <= i < request.methods@.len() ==> (#[trigger] request.methods@[i]).valid(),
    ensures
        parse_methods_request(encode_methods_request(request@)) matches Ok((offer, taken))
            && offer == request@ && taken == encode_methods_request(request@).len(),
{
    let s = encode_methods_request(request@);
    let methods = request.methods@;
    let n = methods.len() as int;
    assert(s.len() == 2 + n);
    assert(s[1] == n);
    assert forall|k: int| 2 <= k < 2 + n implies s[k] != 0xff && AuthMethod::parse(s[k])
        == Ok::<AuthMethod, crate::Error>(methods[k - 2]) by {
        assert(s[k] == methods[k - 2].byte());
        assert(methods[k - 2].valid());
        methods[k - 2].lemma_parse_byte(0);
    }
    let parsed = parse_methods_request(s);
    assert(parsed is Ok);
    assert(parsed->Ok_0.0.methods =~= methods);
}

/// A choice of a valid method, or of none, is read back as it was.
pub proof fn methods_response_round_trip(response: AuthMethodsResponse)
    requires
        response.method matches Some(method) ==> method.valid(),
    ensures
        parse_methods_response(encode_methods_response(response)) matches Ok((choice, taken))
            && choice == response && taken == encode_methods_response(response).len(),
{
    match response.method {
        Some(method) => {
            method.lemma_parse_byte(0);
        },
        None => {},
    }
}

/// A request whose target can be encoded is read back as it was, and its
/// message is three bytes longer than the address triple.
pub proof fn request_round_trip(request: Request)
    requires
        encodable(request.addr@),
    ensures
        parse_request(encode_request(request@)) matches Ok((read, taken)) && read == request@
            && taken == encode_request(request@).len(),
        encode_request(request@).len() == 3 + serialized_len(request.addr@),
{
    let s = encode_request(request@);
    addr_round_trip(request.addr, Seq::empty());
    assert(s.skip(3) =~= encode_addr(request.addr@) + Seq::<u8>::empty());
}

/// A reply whose bound address can be encoded is read back as it was.
pub proof fn response_round_trip(response: Response)
    requires
        encodable(response.addr@),
    ensures
        parse_response(encode_response(response@)) matches Ok((read, taken)) && read
            == response@ && taken == encode_response(response@).len(),
        encode_response(response@).len() == 3 + serialized_len(response.addr@),
{
    let s = encode_response(response@);
    addr_round_trip(response.addr, Seq::empty());
    response.code.lemma_parse_byte();
    assert(s.skip(3) =~= encode_addr(response.addr@) + Seq::<u8>::empty());
}

/// An address triple that starts with a byte other than 1, 3 or 4 is
/// refused with that byte.
pub proof fn unknown_addr_type_is_refused(s: Seq<u8>)
    requires
        s.len() >= 1,
        s[0] != 1 && s[0] != 3 && s[0] != 4,
    ensures
        parse_addr(s) matches Err(e) && e == ErrorView::AddrTypeNotSupported(s[0]),
{
}

/// A message that starts with a byte other than 4 or 5 is refused with
/// that byte, whichever of the four messages is read.
pub proof fn unknown_version_is_refused(s: Seq<u8>)
    requires
        s.len() >= 1,
        s[0] != 4 && s[0] != 5,
    ensures
        parse_methods_request(s) matches Err(e) && e == ErrorView::VersionNotSupported(s[0]),
        parse_methods_response(s) matches Err(e) && e == ErrorView::VersionNotSupported(s[0]),
        parse_request(s) matches Err(e) && e == ErrorView::VersionNotSupported(s[0]),
        parse_response(s) matches Err(e) && e == ErrorView::VersionNotSupported(s[0]),
{
}

} // verus!
