//! The Gopher exchange: a selector and a line end go out; all that comes
//! back is the body.

use crate::address::{Address, AddressView};
use crate::client::{crlf, terminate, view_request, Request, RequestView};
use crate::protocols::Scheme;
use crate::text::chars_of;
use vstd::prelude::*;
use vstd::utf8::{encode_utf8, valid_utf8};

verus! {

/// When the two characters in front of a selector are taken for an item
/// type and dropped.
#[derive(Clone, Copy, Debug, PartialEq, Eq, Structural)]
pub enum SelectorRule {
    /// Whenever the selector begins with `/0`, `/1` or `/g`.
    AnyTypePrefix,
    /// Only when the selector begins with `/0/` or `/1/`.
    TypeDirectory,
}

/// The path of an address with its query, if any, behind a question mark.
pub open spec fn spec_full_path(a: AddressView) -> Seq<char> {
    match a.query {
        Some(q) => a.path + seq!['?'] + q,
        None => a.path,
    }
}

/// Whether `s` begins with an item type in the sense of `rule`.
pub open spec fn has_type_prefix(rule: SelectorRule, s: Seq<char>) -> bool {
    match rule {
        SelectorRule::AnyTypePrefix => s.len() >= 2 && s[0] == '/' && (s[1] == '0' || s[1] == '1'
            || s[1] == 'g'),
        SelectorRule::TypeDirectory => s.len() >= 3 && s[0] == '/' && (s[1] == '0' || s[1] == '1')
            && s[2] == '/',
    }
}

/// The selector of an address, still percent-encoded: its path and query
/// without the first two characters where they are an item type.
pub open spec fn spec_selector(rule: SelectorRule, a: AddressView) -> Seq<char> {
    let full = spec_full_path(a);
    if has_type_prefix(rule, full) {
        full.subrange(2, full.len() as int)
    } else {
        full
    }
}

/// The value of a hexadecimal digit, in either case.
pub open spec fn hex_value(b: u8) -> Option<u8> {
    if 0x30 <= b <= 0x39 {
        Some((b - 0x30) as u8)
    } else if 0x41 <= b <= 0x46 {
        Some((b - 0x41 + 10) as u8)
    } else if 0x61 <= b <= 0x66 {
        Some((b - 0x61 + 10) as u8)
    } else {
        None
    }
}

/// Percent-decoding: every `%` that two hexadecimal digits follow
/// becomes, with them, the byte they spell; every other byte stays.
pub open spec fn percent_decoded(s: Seq<u8>) -> Seq<u8>
    decreases s.len(),
{
    if s.len() == 0 {
        s
    } else if s[0] == 0x25 && s.len() >= 3 && hex_value(s[1]) is Some && hex_value(s[2]) is Some {
        seq![(hex_value(s[1]).unwrap() * 16 + hex_value(s[2]).unwrap()) as u8] + percent_decoded(
            s.subrange(3, s.len() as int),
        )
    } else {
        seq![s[0]] + percent_decoded(s.subrange(1, s.len() as int))
    }
}

/// Calls `percent_encoding::percent_decode` on the bytes of `input` and
/// `decode_utf8` on what it returns. The crate documents that any `%`
/// followed by two hexadecimal digits is decoded, and that `decode_utf8`
/// fails exactly where the decoded bytes are not well-formed UTF-8; the
/// contract says that with [`percent_decoded`].
#[verifier::external_body]
fn percent_decode_utf8(input: &str) -> (r: Option<String>)
    ensures
        r is Some == valid_utf8(percent_decoded(encode_utf8(input@))),
        r is Some ==> encode_utf8(r.unwrap()@) == percent_decoded(encode_utf8(input@)),
{
    match percent_encoding::percent_decode(input.as_bytes()).decode_utf8() {
        Ok(s) => Some(s.into_owned()),
        Err(_) => None,
    }
}

/// Computes [`spec_full_path`].
pub fn full_path(address: &Address) -> (r: String)
    ensures
        r@ == spec_full_path(address@),
{
    let mut s = String::from_str(address.path());
    match address.query() {
        Some(q) => {
            proof {
                reveal_strlit("?");
                assert("?"@ =~= seq!['?']);
            }
            s.append("?");
            s.append(q);
        },
        None => {},
    }
    s
}

/// Computes [`spec_selector`].
pub fn selector(rule: SelectorRule, address: &Address) -> (r: String)
    ensures
        r@ == spec_selector(rule, address@),
{
    let full = full_path(address);
    let chars = chars_of(full.as_str());
    let n = chars.len();
    let typed = match rule {
        SelectorRule::AnyTypePrefix => n >= 2 && chars[0] == '/' && (chars[1] == '0' || chars[1]
            == '1' || chars[1] == 'g'),
        SelectorRule::TypeDirectory => n >= 3 && chars[0] == '/' && (chars[1] == '0' || chars[1]
            == '1') && chars[2] == '/',
    };
    if typed {
        full.as_str().substring_char(2, n).to_owned()
    } else {
        full
    }
}

/// The bytes that ask for `address`: its selector, percent-decoded, and
/// a line end. There are none where the decoded selector is not
/// well-formed UTF-8.
pub open spec fn spec_payload(rule: SelectorRule, a: AddressView) -> Option<Seq<u8>> {
    let decoded = percent_decoded(encode_utf8(spec_selector(rule, a)));
    if valid_utf8(decoded) {
        Some(decoded + crlf())
    } else {
        None
    }
}

/// The port to connect to: that of the address, else the Gopher port.
pub open spec fn spec_port(a: AddressView) -> u16 {
    match a.port {
        Some(p) => p,
        None => Scheme::Gopher.spec_port(),
    }
}

/// The request for the item at an address: to its host and port, in the
/// clear, the bytes of [`spec_payload`]. There is no request for an
/// address without a host, nor where there is no payload.
pub open spec fn spec_request(rule: SelectorRule, a: AddressView) -> Option<RequestView> {
    match (a.host, spec_payload(rule, a)) {
        (Some(host), Some(payload)) => Some(
            RequestView {
                host,
                port: spec_port(a),
                secure: false,
                trust_any_certificate: false,
                payload,
            },
        ),
        _ => None,
    }
}

/// Builds the request of [`spec_request`].
pub fn request(address: &Address, rule: SelectorRule) -> (r: Option<Request>)
    ensures
        view_request(r) == spec_request(rule, address@),
{
    let host = match address.host_str() {
        Some(host) => host,
        None => {
            return None;
        },
    };
    let port = match address.port() {
        Some(p) => p,
        None => Scheme::Gopher.port(),
    };
    let encoded = selector(rule, address);
    match percent_decode_utf8(encoded.as_str()) {
        Some(decoded) => {
            let mut payload = decoded.as_str().as_bytes_vec();
            terminate(&mut payload);
            Some(
                Request {
                    host: host.to_owned(),
                    port,
                    secure: false,
                    trust_any_certificate: false,
                    payload,
                },
            )
        },
        None => None,
    }
}

/// The response `raw` as metadata and body: Gopher has no metadata, the
/// whole response is the body.
pub fn response(raw: Vec<u8>) -> (r: (Option<Vec<u8>>, Vec<u8>))
    ensures
        r.0 is None,
        r.1@ == raw@,
{
    (None, raw)
}

} // verus!
