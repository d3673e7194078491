//! The Gemini exchange: the address and a line end go out over TLS; the
//! first line that comes back is the status line, the rest is the body.

use crate::address::{Address, AddressView};
use crate::client::{
    copy_range, crlf, find_clrf, is_crlf_at, is_first_crlf, terminate, view_request,
    Request, RequestView,
};
use crate::protocols::Scheme;
use crate::status::StatusError;
use vstd::prelude::*;
use vstd::utf8::encode_utf8;

verus! {

/// The status line and the body of the response `raw`: what stands before
/// its first line end and what stands after it. A response without a line
/// end has neither.
pub open spec fn spec_split(raw: Seq<u8>) -> Option<(Seq<u8>, Seq<u8>)> {
    if exists|i: int| is_first_crlf(raw, i) {
        let i = choose|i: int| is_first_crlf(raw, i);
        Some((raw.subrange(0, i), raw.subrange(i + 2, raw.len() as int)))
    } else {
        None
    }
}

/// The request for the page at an address: to its host on the Gemini
/// port, over TLS, the address followed by a line end. Gemini servers sign
/// their own certificates, so as a rule `trust_any` is on and no
/// certificate or host name is checked. An address without a host has no
/// request.
pub open spec fn spec_request(a: AddressView, trust_any: bool) -> Option<RequestView> {
    match a.host {
        Some(host) => Some(
            RequestView {
                host,
                port: Scheme::Gemini.spec_port(),
                secure: true,
                trust_any_certificate: trust_any,
                payload: encode_utf8(a.text) + crlf(),
            },
        ),
        None => None,
    }
}

/// Builds the request of [`spec_request`].
pub fn request(address: &Address, trust_any: bool) -> (r: Option<Request>)
    ensures
        view_request(r) == spec_request(address@, trust_any),
{
    match address.host_str() {
        Some(host) => {
            let mut payload = address.as_str().as_bytes_vec();
            terminate(&mut payload);
            Some(
                Request {
                    host: host.to_owned(),
                    port: Scheme::Gemini.port(),
                    secure: true,
                    trust_any_certificate: trust_any,
                    payload,
                },
            )
        },
        None => None,
    }
}

/// Splits the response `raw` into the status line and the body. A
/// response without a line end is `Malformed`.
pub fn response(raw: &[u8]) -> (r: Result<(Option<Vec<u8>>, Vec<u8>), StatusError>)
    ensures
        match r {
            Ok((meta, body)) => meta is Some && spec_split(raw@) == Some(
                (meta.unwrap()@, body@),
            ),
            Err(e) => e == StatusError::Malformed && spec_split(raw@) is None,
        },
{
    match find_clrf(raw) {
        Some(i) => {
            assert(is_crlf_at(raw@, i as int));
            assert(i + 1 < raw@.len());
            let n = raw.len();
            assert(i + 2 <= n);
            let meta = copy_range(raw, 0, i);
            let body = copy_range(raw, i + 2, n);
            proof {
                let j = choose|j: int| is_first_crlf(raw@, j);
                assert(is_first_crlf(raw@, i as int));
                assert(j == i) by {
                    if j < i {
                        assert(!is_crlf_at(raw@, j));
                    }
                    if i < j {
                        assert(!is_crlf_at(raw@, i as int));
                    }
                }
            }
            Ok((Some(meta), body))
        },
        None => {
            assert(forall|i: int| !is_first_crlf(raw@, i));
            Err(StatusError::Malformed)
        },
    }
}

} // verus!
