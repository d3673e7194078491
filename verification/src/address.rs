//! Absolute addresses. The `url` crate reads them; the library keeps the
//! parts that its logic looks at as plain values.

use vstd::prelude::*;

verus! {

/// Why a string was not read as an absolute address.
#[derive(Clone, Copy, Debug, PartialEq, Eq, Structural)]
pub enum ParseFailure {
    /// The string is a relative reference and no base was given.
    RelativeWithoutBase,
    /// Any other failure.
    Malformed,
}

/// The error of every operation that has to produce an address.
#[derive(Clone, Copy, Debug, PartialEq, Eq, Structural)]
pub enum UrlError {
    /// The reference does not give a valid absolute address.
    Invalid,
}

/// An absolute, scheme-qualified address.
#[derive(Debug, PartialEq, Eq)]
pub struct Address {
    text: String,
    scheme: String,
    username: String,
    host: Option<String>,
    port: Option<u16>,
    path: String,
    query: Option<String>,
    through_path: String,
}

/// The mathematical value of an [`Address`].
pub struct AddressView {
    /// The whole address, serialized.
    pub text: Seq<char>,
    /// The scheme, without the colon.
    pub scheme: Seq<char>,
    /// The user name, empty if there is none.
    pub username: Seq<char>,
    /// The host, if the address has one.
    pub host: Option<Seq<char>>,
    /// The port, if one is written and is not the scheme's default.
    pub port: Option<u16>,
    /// The path.
    pub path: Seq<char>,
    /// The query, without the question mark.
    pub query: Option<Seq<char>>,
    /// The serialization up to the end of the path.
    pub through_path: Seq<char>,
}

/// What `url::Url::parse` makes of `input`: the parts of the URL it
/// returns, or the kind of its error.
pub uninterp spec fn url_parse(input: Seq<char>) -> Result<AddressView, ParseFailure>;

/// The serialization of what `url::Url::join` makes of `input` on the URL
/// that `url::Url::parse` reads from `base`, if both succeed.
pub uninterp spec fn url_join(base: Seq<char>, input: Seq<char>) -> Option<Seq<char>>;

/// The view of a string that may be absent.
pub open spec fn view_opt(s: Option<String>) -> Option<Seq<char>> {
    match s {
        Some(s) => Some(s@),
        None => None,
    }
}

/// The view of a borrowed string that may be absent.
pub open spec fn view_str(s: Option<&str>) -> Option<Seq<char>> {
    match s {
        Some(s) => Some(s@),
        None => None,
    }
}

/// The view of the outcome of reading an address.
pub open spec fn view_outcome(r: Result<Address, ParseFailure>) -> Result<
    AddressView,
    ParseFailure,
> {
    match r {
        Ok(a) => Ok(a@),
        Err(e) => Err(e),
    }
}

/// The view of the outcome of an operation that has to produce an address.
pub open spec fn view_result(r: Result<Address, UrlError>) -> Result<AddressView, UrlError> {
    match r {
        Ok(a) => Ok(a@),
        Err(e) => Err(e),
    }
}

/// What reading `input` as an absolute address gives.
pub open spec fn parsed(input: Seq<char>) -> Result<AddressView, UrlError> {
    match url_parse(input) {
        Ok(a) => Ok(a),
        Err(_) => Err(UrlError::Invalid),
    }
}

impl View for Address {
    type V = AddressView;

    closed spec fn view(&self) -> AddressView {
        AddressView {
            text: self.text@,
            scheme: self.scheme@,
            username: self.username@,
            host: view_opt(self.host),
            port: self.port,
            path: self.path@,
            query: view_opt(self.query),
            through_path: self.through_path@,
        }
    }
}

/// Calls `url::Url::parse` on `input`. On success the parts of the URL
/// are copied out through `as_str`, `scheme`, `username`, `host_str`,
/// `port`, `path`, `query` and the slice up to `Position::AfterPath`; on
/// failure the error is told apart as "relative URL without a base" or
/// anything else. The contract only names this outcome.
#[verifier::external_body]
pub(crate) fn parse_url(input: &str) -> (r: Result<Address, ParseFailure>)
    ensures
        view_outcome(r) == url_parse(input@),
{
    match url::Url::parse(input) {
        Ok(u) => Ok(Address {
            text: u.as_str().to_string(),
            scheme: u.scheme().to_string(),
            username: u.username().to_string(),
            host: u.host_str().map(|h| h.to_string()),
            port: u.port(),
            path: u.path().to_string(),
            query: u.query().map(|q| q.to_string()),
            through_path: u[..url::Position::AfterPath].to_string(),
        }),
        Err(url::ParseError::RelativeUrlWithoutBase) => Err(ParseFailure::RelativeWithoutBase),
        Err(_) => Err(ParseFailure::Malformed),
    }
}

/// Calls `url::Url::parse` on the text of `base` and `url::Url::join`
/// with `input` on the URL that gives, and returns the serialization of
/// the joined URL, or nothing where either call fails. The contract only
/// names this outcome.
#[verifier::external_body]
pub(crate) fn join_url(base: &Address, input: &str) -> (r: Option<String>)
    ensures
        view_opt(r) == url_join(base@.text, input@),
{
    match url::Url::parse(base.text.as_str()).and_then(|b| b.join(input)) {
        Ok(u) => Some(u.as_str().to_string()),
        Err(_) => None,
    }
}

/// A copy of a string that may be absent.
pub fn copy_opt(s: &Option<String>) -> (r: Option<String>)
    ensures
        view_opt(r) == view_opt(*s),
{
    match s {
        Some(s) => Some(s.clone()),
        None => None,
    }
}

impl Clone for Address {
    fn clone(&self) -> (r: Address)
        ensures
            r@ == self@,
    {
        Address {
            text: self.text.clone(),
            scheme: self.scheme.clone(),
            username: self.username.clone(),
            host: copy_opt(&self.host),
            port: self.port,
            path: self.path.clone(),
            query: copy_opt(&self.query),
            through_path: self.through_path.clone(),
        }
    }
}

impl Address {
    /// Reads `input` as an absolute address.
    pub fn parse(input: &str) -> (r: Result<Address, UrlError>)
        ensures
            view_result(r) == parsed(input@),
    {
        match parse_url(input) {
            Ok(a) => Ok(a),
            Err(_) => Err(UrlError::Invalid),
        }
    }

    /// The whole address, serialized.
    pub fn as_str(&self) -> (r: &str)
        ensures
            r@ == self@.text,
    {
        self.text.as_str()
    }

    /// The scheme, without the colon.
    pub fn scheme(&self) -> (r: &str)
        ensures
            r@ == self@.scheme,
    {
        self.scheme.as_str()
    }

    /// The user name, empty if there is none.
    pub fn username(&self) -> (r: &str)
        ensures
            r@ == self@.username,
    {
        self.username.as_str()
    }

    /// The host, if the address has one.
    pub fn host_str(&self) -> (r: Option<&str>)
        ensures
            view_str(r) == self@.host,
    {
        match &self.host {
            Some(h) => Some(h.as_str()),
            None => None,
        }
    }

    /// The port, if one is written and is not the scheme's default.
    pub fn port(&self) -> (r: Option<u16>)
        ensures
            r == self@.port,
    {
        self.port
    }

    /// The path.
    pub fn path(&self) -> (r: &str)
        ensures
            r@ == self@.path,
    {
        self.path.as_str()
    }

    /// The query, without the question mark.
    pub fn query(&self) -> (r: Option<&str>)
        ensures
            view_str(r) == self@.query,
    {
        match &self.query {
            Some(q) => Some(q.as_str()),
            None => None,
        }
    }

    /// The serialization up to the end of the path: the address without
    /// its query and fragment.
    pub fn through_path(&self) -> (r: &str)
        ensures
            r@ == self@.through_path,
    {
        self.through_path.as_str()
    }
}

} // verus!
