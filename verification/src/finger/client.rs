//! The Finger exchange: a user name and a line end go out; all that
//! comes back is the body.

use crate::address::{Address, AddressView};
use crate::client::{crlf, terminate, view_request, Request, RequestView};
use crate::protocols::Scheme;
use crate::text::chars_of;
use vstd::prelude::*;
use vstd::utf8::encode_utf8;

verus! {

/// The user that an address asks about: its user name if it has one,
/// else its path without the leading slash.
pub open spec fn spec_username(a: AddressView) -> Seq<char> {
    if a.username.len() > 0 {
        a.username
    } else if a.path.len() > 0 && a.path[0] == '/' {
        a.path.subrange(1, a.path.len() as int)
    } else {
        a.path
    }
}

/// Computes [`spec_username`].
pub fn username(address: &Address) -> (r: String)
    ensures
        r@ == spec_username(address@),
{
    let name = address.username();
    if name.unicode_len() > 0 {
        return name.to_owned();
    }
    let path = address.path();
    let chars = chars_of(path);
    if chars.len() > 0 && chars[0] == '/' {
        path.substring_char(1, chars.len()).to_owned()
    } else {
        path.to_owned()
    }
}

/// The request for the user at an address: to its host on the Finger
/// port, in the clear, the user name followed by a line end. An address
/// without a host has no request.
pub open spec fn spec_request(a: AddressView) -> Option<RequestView> {
    match a.host {
        Some(host) => Some(
            RequestView {
                host,
                port: Scheme::Finger.spec_port(),
                secure: false,
                trust_any_certificate: false,
                payload: encode_utf8(spec_username(a)) + crlf(),
            },
        ),
        None => None,
    }
}

/// Builds the request of [`spec_request`].
pub fn request(address: &Address) -> (r: Option<Request>)
    ensures
        view_request(r) == spec_request(address@),
{
    match address.host_str() {
        Some(host) => {
            let name = username(address);
            let mut payload = name.as_str().as_bytes_vec();
            terminate(&mut payload);
            Some(
                Request {
                    host: host.to_owned(),
                    port: Scheme::Finger.port(),
                    secure: false,
                    trust_any_certificate: false,
                    payload,
                },
            )
        },
        None => None,
    }
}

/// The response `raw` as metadata and body: Finger has no metadata, the
/// whole response is the body.
pub fn response(raw: Vec<u8>) -> (r: (Option<Vec<u8>>, Vec<u8>))
    ensures
        r.0 is None,
        r.1@ == raw@,
{
    (None, raw)
}

} // verus!
