//! Turning a reference into an absolute Gopher address.

use crate::absolute::{resolve, spec_resolve};
use crate::address::{view_result, Address, UrlError};
use crate::history::History;
use crate::protocols::Scheme;
use vstd::prelude::*;

verus! {

/// Resolves `url` as a Gopher reference.
pub fn make(url: &str, history: &History) -> (r: Result<Address, UrlError>)
    ensures
        view_result(r) == spec_resolve(Scheme::Gopher, url@, history@),
{
    resolve(Scheme::Gopher, url, history)
}

} // verus!
