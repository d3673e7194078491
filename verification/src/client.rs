//! What the three clients share: the request that is sent, the errors of
//! an exchange, and the split of a response at its first line end.

use vstd::prelude::*;

verus! {

/// One exchange with a server: where to connect, whether to speak TLS,
/// and the bytes to send before reading to the end.
#[derive(Clone, Debug, PartialEq, Eq)]
pub struct Request {
    pub host: String,
    pub port: u16,
    /// Whether the exchange runs over TLS.
    pub secure: bool,
    /// Whether, over TLS, any certificate and any host name is taken.
    pub trust_any_certificate: bool,
    pub payload: Vec<u8>,
}

/// The mathematical value of a [`Request`].
pub struct RequestView {
    pub host: Seq<char>,
    pub port: u16,
    pub secure: bool,
    pub trust_any_certificate: bool,
    pub payload: Seq<u8>,
}

impl View for Request {
    type V = RequestView;

    open spec fn view(&self) -> RequestView {
        RequestView {
            host: self.host@,
            port: self.port,
            secure: self.secure,
            trust_any_certificate: self.trust_any_certificate,
            payload: self.payload@,
        }
    }
}

/// The value of a request that may be absent.
pub open spec fn view_request(r: Option<Request>) -> Option<RequestView> {
    match r {
        Some(q) => Some(q@),
        None => None,
    }
}

impl Request {
    /// A copy of the request.
    pub fn duplicate(&self) -> (r: Request)
        ensures
            r@ == self@,
    {
        Request {
            host: self.host.clone(),
            port: self.port,
            secure: self.secure,
            trust_any_certificate: self.trust_any_certificate,
            payload: self.payload.clone(),
        }
    }
}

/// Why an exchange failed. Each carries the `host:port` that was tried
/// and the cause in words.
#[derive(Clone, Debug, PartialEq, Eq)]
pub enum FetchError {
    /// No socket address was found for the host.
    ResolutionFailed { endpoint: String, cause: String },
    /// The connection was refused or timed out.
    ConnectFailed { endpoint: String, cause: String },
    /// The TLS handshake failed.
    HandshakeFailed { endpoint: String, cause: String },
    /// Writing the request or reading the response failed.
    IoFailed { endpoint: String, cause: String },
}

/// A way to reach servers.
pub trait Client {
    /// Runs one exchange: connects as `request` says, sends its payload
    /// and reads until the server closes the connection. Returns all that
    /// was read, or why the exchange failed.
    fn get_data(&self, request: &Request) -> Result<Vec<u8>, FetchError>;
}

/// The line end of all three protocols: carriage return, line feed.
pub open spec fn crlf() -> Seq<u8> {
    seq![13u8, 10u8]
}

/// Whether a carriage return stands at `i` in `data` with a line feed
/// after it.
pub open spec fn is_crlf_at(data: Seq<u8>, i: int) -> bool {
    0 <= i && i + 1 < data.len() && data[i] == 13 && data[i + 1] == 10
}

/// Whether `i` is the place of the first line end in `data`.
pub open spec fn is_first_crlf(data: Seq<u8>, i: int) -> bool {
    is_crlf_at(data, i) && forall|j: int| 0 <= j < i ==> !is_crlf_at(data, j)
}

/// Whether `data` holds no line end.
pub open spec fn has_no_crlf(data: Seq<u8>) -> bool {
    forall|j: int| !is_crlf_at(data, j)
}

impl FetchError {
    /// The `host:port` that was tried.
    pub open spec fn spec_endpoint(self) -> Seq<char> {
        match self {
            FetchError::ResolutionFailed { endpoint, .. } => endpoint@,
            FetchError::ConnectFailed { endpoint, .. } => endpoint@,
            FetchError::HandshakeFailed { endpoint, .. } => endpoint@,
            FetchError::IoFailed { endpoint, .. } => endpoint@,
        }
    }

    /// The cause in words.
    pub open spec fn spec_cause(self) -> Seq<char> {
        match self {
            FetchError::ResolutionFailed { cause, .. } => cause@,
            FetchError::ConnectFailed { cause, .. } => cause@,
            FetchError::HandshakeFailed { cause, .. } => cause@,
            FetchError::IoFailed { cause, .. } => cause@,
        }
    }

    /// The words that every message begins with.
    pub open spec fn lead() -> Seq<char> {
        "Could not connect to "@
    }

    /// The message for the reader: `Could not connect to `, the
    /// endpoint, a line feed and the cause.
    pub open spec fn spec_message(self) -> Seq<char> {
        Self::lead() + self.spec_endpoint() + seq!['\n'] + self.spec_cause()
    }

    /// The `host:port` that was tried.
    pub fn endpoint(&self) -> (r: &str)
        ensures
            r@ == self.spec_endpoint(),
    {
        match self {
            FetchError::ResolutionFailed { endpoint, .. } => endpoint.as_str(),
            FetchError::ConnectFailed { endpoint, .. } => endpoint.as_str(),
            FetchError::HandshakeFailed { endpoint, .. } => endpoint.as_str(),
            FetchError::IoFailed { endpoint, .. } => endpoint.as_str(),
        }
    }

    /// The cause in words.
    pub fn cause(&self) -> (r: &str)
        ensures
            r@ == self.spec_cause(),
    {
        match self {
            FetchError::ResolutionFailed { cause, .. } => cause.as_str(),
            FetchError::ConnectFailed { cause, .. } => cause.as_str(),
            FetchError::HandshakeFailed { cause, .. } => cause.as_str(),
            FetchError::IoFailed { cause, .. } => cause.as_str(),
        }
    }

    /// The message for the reader.
    pub fn message(&self) -> (r: String)
        ensures
            r@ == self.spec_message(),
    {
        proof {
            reveal_strlit("\n");
            assert("\n"@ =~= seq!['\n']);
        }
        let mut s = String::from_str("Could not connect to ");
        s.append(self.endpoint());
        s.append("\n");
        s.append(self.cause());
        s
    }
}

/// The place of the first line end in `data`, if it holds one.
pub fn find_clrf(data: &[u8]) -> (r: Option<usize>)
    ensures
        match r {
            Some(i) => is_first_crlf(data@, i as int),
            None => has_no_crlf(data@),
        },
{
    let n = data.len();
    if n < 2 {
        return None;
    }
    let mut i: usize = 0;
    while i < n - 1
        invariant
            n == data.len(),
            2 <= n,
            i <= n - 1,
            forall|j: int| 0 <= j < i ==> !is_crlf_at(data@, j),
        decreases n - i,
    {
        if data[i] == 13 && data[i + 1] == 10 {
            return Some(i);
        }
        i += 1;
    }
    None
}

/// The bytes of `data` from `from` up to `to`.
pub fn copy_range(data: &[u8], from: usize, to: usize) -> (r: Vec<u8>)
    requires
        from <= to <= data.len(),
    ensures
        r@ == data@.subrange(from as int, to as int),
{
    let mut r: Vec<u8> = Vec::new();
    let mut i: usize = from;
    while i < to
        invariant
            from <= i <= to <= data.len(),
            r@ == data@.subrange(from as int, i as int),
        decreases to - i,
    {
        r.push(data[i]);
        assert(r@ =~= data@.subrange(from as int, i + 1));
        i += 1;
    }
    r
}

/// Appends the line end to `payload`.
pub fn terminate(payload: &mut Vec<u8>)
    ensures
        final(payload)@ == old(payload)@ + crlf(),
{
    payload.push(13);
    payload.push(10);
    assert(payload@ =~= old(payload)@ + crlf());
}

} // verus!
