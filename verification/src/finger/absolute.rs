//! Turning a reference into an absolute Finger address.

use crate::absolute::{resolve, spec_resolve};
use crate::address::{view_result, Address, UrlError};
use crate::history::History;
use crate::protocols::Scheme;
use vstd::prelude::*;

verus! {

/// Resolves `url` as a Finger reference.
pub fn make(url: &str, history: &History) -> (r: Result<Address, UrlError>)
    ensures
        view_result(r) == spec_resolve(Scheme::Finger, url@, history@),
{
    resolve(Scheme::Finger, url, history)
}

} // verus!
