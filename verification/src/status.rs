//! The first line of a Gemini response: a two-digit code, a space and a
//! detail.

use crate::text::{chars_of, is_space, space};
use vstd::prelude::*;

verus! {

/// What a status code stands for.
#[derive(Clone, Copy, Debug, PartialEq, Eq, Structural)]
pub enum Kind {
    Input,
    Success,
    RedirectTemporary,
    RedirectPermanent,
    TemporaryFailure,
    ServerUnavailable,
    CGIError,
    ProxyError,
    SlowDown,
    PermanentFailure,
    NotFound,
    Gone,
    ProxyRequestRefused,
    BadRequest,
    ClientCertificateRequired,
    TransientCertificateRequired,
    AuthorisedCertificatedRequired,
    CertificateNotAccepted,
    FutureCertificateRejected,
    ExpiredCertificateRejected,
    Unknown,
}

/// A decoded status line: what the code stands for, with the detail that
/// follows the code. For `Input` the detail is the prompt, for `Success`
/// the media type, for the redirects the target.
#[derive(Clone, Debug, PartialEq, Eq)]
pub enum Status {
    Input(String),
    Success(String),
    RedirectTemporary(String),
    RedirectPermanent(String),
    TemporaryFailure(String),
    ServerUnavailable(String),
    CGIError(String),
    ProxyError(String),
    SlowDown(String),
    PermanentFailure(String),
    NotFound(String),
    Gone(String),
    ProxyRequestRefused(String),
    BadRequest(String),
    ClientCertificateRequired(String),
    TransientCertificateRequired(String),
    AuthorisedCertificatedRequired(String),
    CertificateNotAccepted(String),
    FutureCertificateRejected(String),
    ExpiredCertificateRejected(String),
    Unknown(String),
}

/// Why a status line was not decoded.
#[derive(Clone, Copy, Debug, PartialEq, Eq, Structural)]
pub enum StatusError {
    /// The line does not begin with two digits and a space.
    Malformed,
}

/// Whether `c` is one of `0` to `9`.
pub open spec fn is_digit(c: char) -> bool {
    0x30 <= c as u32 <= 0x39
}

/// The media type of a success without a detail: `text/gemini`.
pub open spec fn default_mime() -> Seq<char> {
    seq!['t', 'e', 'x', 't', '/', 'g', 'e', 'm', 'i', 'n', 'i']
}

/// Whether every character of `s` is white space.
pub open spec fn is_blank(s: Seq<char>) -> bool {
    forall|i: int| 0 <= i < s.len() ==> is_space(#[trigger] s[i])
}

/// What the code with the digits `first` and `second` stands for. The
/// first digit gives the class; within a class a second digit without a
/// meaning of its own stands for the class as a whole.
pub open spec fn spec_kind(first: char, second: char) -> Kind {
    let a = first as u32 - 0x30;
    let b = second as u32 - 0x30;
    if a == 1 {
        Kind::Input
    } else if a == 2 {
        Kind::Success
    } else if a == 3 {
        if b == 1 {
            Kind::RedirectPermanent
        } else {
            Kind::RedirectTemporary
        }
    } else if a == 4 {
        if b == 1 {
            Kind::ServerUnavailable
        } else if b == 2 {
            Kind::CGIError
        } else if b == 3 {
            Kind::ProxyError
        } else if b == 4 {
            Kind::SlowDown
        } else {
            Kind::TemporaryFailure
        }
    } else if a == 5 {
        if b == 1 {
            Kind::NotFound
        } else if b == 2 {
            Kind::Gone
        } else if b == 3 {
            Kind::ProxyRequestRefused
        } else if b == 9 {
            Kind::BadRequest
        } else {
            Kind::PermanentFailure
        }
    } else if a == 6 {
        if b == 1 {
            Kind::TransientCertificateRequired
        } else if b == 2 {
            Kind::AuthorisedCertificatedRequired
        } else if b == 3 {
            Kind::CertificateNotAccepted
        } else if b == 4 {
            Kind::FutureCertificateRejected
        } else if b == 5 {
            Kind::ExpiredCertificateRejected
        } else {
            Kind::ClientCertificateRequired
        }
    } else {
        Kind::Unknown
    }
}

/// Whether `line` has the form of a status line: two digits, a space,
/// then anything.
pub open spec fn well_formed(line: Seq<char>) -> bool {
    line.len() >= 3 && is_digit(line[0]) && is_digit(line[1]) && line[2] == ' '
}

/// The detail that a status of kind `kind` carries when `rest` follows
/// the code and the space: `rest` itself, but for a success whose `rest`
/// is blank, which carries `text/gemini`.
pub open spec fn spec_detail(kind: Kind, rest: Seq<char>) -> Seq<char> {
    if kind == Kind::Success && is_blank(rest) {
        default_mime()
    } else {
        rest
    }
}

/// The kind and the detail that `line` decodes to.
pub open spec fn spec_status(line: Seq<char>) -> Result<(Kind, Seq<char>), StatusError> {
    if well_formed(line) {
        let kind = spec_kind(line[0], line[1]);
        Ok((kind, spec_detail(kind, line.subrange(3, line.len() as int))))
    } else {
        Err(StatusError::Malformed)
    }
}

/// The kind and the detail of the outcome of decoding.
pub open spec fn view_status(r: Result<Status, StatusError>) -> Result<
    (Kind, Seq<char>),
    StatusError,
> {
    match r {
        Ok(s) => Ok((s.spec_kind(), s.spec_detail())),
        Err(e) => Err(e),
    }
}

/// Decides [`is_digit`].
pub fn digit(c: char) -> (r: bool)
    ensures
        r == is_digit(c),
{
    let n: u32 = c as u32;
    0x30 <= n && n <= 0x39
}

/// Decides [`is_blank`] for the characters of `s` from `from` on.
pub fn blank_from(s: &Vec<char>, from: usize) -> (r: bool)
    requires
        from <= s.len(),
    ensures
        r == is_blank(s@.subrange(from as int, s.len() as int)),
{
    let ghost rest = s@.subrange(from as int, s.len() as int);
    let mut i: usize = from;
    while i < s.len()
        invariant
            from <= i <= s.len(),
            rest == s@.subrange(from as int, s.len() as int),
            forall|j: int| 0 <= j < i - from ==> is_space(#[trigger] rest[j]),
        decreases s.len() - i,
    {
        if !space(s[i]) {
            assert(rest[i - from] == s[i as int]);
            return false;
        }
        assert(rest[i - from] == s[i as int]);
        i += 1;
    }
    true
}

/// Computes [`spec_kind`].
pub fn kind_of(first: char, second: char) -> (r: Kind)
    requires
        is_digit(first),
        is_digit(second),
    ensures
        r == spec_kind(first, second),
{
    let a: u32 = first as u32 - 0x30;
    let b: u32 = second as u32 - 0x30;
    if a == 1 {
        Kind::Input
    } else if a == 2 {
        Kind::Success
    } else if a == 3 {
        if b == 1 {
            Kind::RedirectPermanent
        } else {
            Kind::RedirectTemporary
        }
    } else if a == 4 {
        if b == 1 {
            Kind::ServerUnavailable
        } else if b == 2 {
            Kind::CGIError
        } else if b == 3 {
            Kind::ProxyError
        } else if b == 4 {
            Kind::SlowDown
        } else {
            Kind::TemporaryFailure
        }
    } else if a == 5 {
        if b == 1 {
            Kind::NotFound
        } else if b == 2 {
            Kind::Gone
        } else if b == 3 {
            Kind::ProxyRequestRefused
        } else if b == 9 {
            Kind::BadRequest
        } else {
            Kind::PermanentFailure
        }
    } else if a == 6 {
        if b == 1 {
            Kind::TransientCertificateRequired
        } else if b == 2 {
            Kind::AuthorisedCertificatedRequired
        } else if b == 3 {
            Kind::CertificateNotAccepted
        } else if b == 4 {
            Kind::FutureCertificateRejected
        } else if b == 5 {
            Kind::ExpiredCertificateRejected
        } else {
            Kind::ClientCertificateRequired
        }
    } else {
        Kind::Unknown
    }
}

impl Status {
    /// What the code stood for.
    pub open spec fn spec_kind(self) -> Kind {
        match self {
            Status::Input(_) => Kind::Input,
            Status::Success(_) => Kind::Success,
            Status::RedirectTemporary(_) => Kind::RedirectTemporary,
            Status::RedirectPermanent(_) => Kind::RedirectPermanent,
            Status::TemporaryFailure(_) => Kind::TemporaryFailure,
            Status::ServerUnavailable(_) => Kind::ServerUnavailable,
            Status::CGIError(_) => Kind::CGIError,
            Status::ProxyError(_) => Kind::ProxyError,
            Status::SlowDown(_) => Kind::SlowDown,
            Status::PermanentFailure(_) => Kind::PermanentFailure,
            Status::NotFound(_) => Kind::NotFound,
            Status::Gone(_) => Kind::Gone,
            Status::ProxyRequestRefused(_) => Kind::ProxyRequestRefused,
            Status::BadRequest(_) => Kind::BadRequest,
            Status::ClientCertificateRequired(_) => Kind::ClientCertificateRequired,
            Status::TransientCertificateRequired(_) => Kind::TransientCertificateRequired,
            Status::AuthorisedCertificatedRequired(_) => Kind::AuthorisedCertificatedRequired,
            Status::CertificateNotAccepted(_) => Kind::CertificateNotAccepted,
            Status::FutureCertificateRejected(_) => Kind::FutureCertificateRejected,
            Status::ExpiredCertificateRejected(_) => Kind::ExpiredCertificateRejected,
            Status::Unknown(_) => Kind::Unknown,
        }
    }

    /// The detail that followed the code.
    pub open spec fn spec_detail(self) -> Seq<char> {
        match self {
            Status::Input(d) => d@,
            Status::Success(d) => d@,
            Status::RedirectTemporary(d) => d@,
            Status::RedirectPermanent(d) => d@,
            Status::TemporaryFailure(d) => d@,
            Status::ServerUnavailable(d) => d@,
            Status::CGIError(d) => d@,
            Status::ProxyError(d) => d@,
            Status::SlowDown(d) => d@,
            Status::PermanentFailure(d) => d@,
            Status::NotFound(d) => d@,
            Status::Gone(d) => d@,
            Status::ProxyRequestRefused(d) => d@,
            Status::BadRequest(d) => d@,
            Status::ClientCertificateRequired(d) => d@,
            Status::TransientCertificateRequired(d) => d@,
            Status::AuthorisedCertificatedRequired(d) => d@,
            Status::CertificateNotAccepted(d) => d@,
            Status::FutureCertificateRejected(d) => d@,
            Status::ExpiredCertificateRejected(d) => d@,
            Status::Unknown(d) => d@,
        }
    }

    /// The status of kind `kind` with the detail `detail`.
    pub fn of(kind: Kind, detail: String) -> (r: Status)
        ensures
            r.spec_kind() == kind,
            r.spec_detail() == detail@,
    {
        match kind {
            Kind::Input => Status::Input(detail),
            Kind::Success => Status::Success(detail),
            Kind::RedirectTemporary => Status::RedirectTemporary(detail),
            Kind::RedirectPermanent => Status::RedirectPermanent(detail),
            Kind::TemporaryFailure => Status::TemporaryFailure(detail),
            Kind::ServerUnavailable => Status::ServerUnavailable(detail),
            Kind::CGIError => Status::CGIError(detail),
            Kind::ProxyError => Status::ProxyError(detail),
            Kind::SlowDown => Status::SlowDown(detail),
            Kind::PermanentFailure => Status::PermanentFailure(detail),
            Kind::NotFound => Status::NotFound(detail),
            Kind::Gone => Status::Gone(detail),
            Kind::ProxyRequestRefused => Status::ProxyRequestRefused(detail),
            Kind::BadRequest => Status::BadRequest(detail),
            Kind::ClientCertificateRequired => Status::ClientCertificateRequired(detail),
            Kind::TransientCertificateRequired => Status::TransientCertificateRequired(detail),
            Kind::AuthorisedCertificatedRequired => Status::AuthorisedCertificatedRequired(detail),
            Kind::CertificateNotAccepted => Status::CertificateNotAccepted(detail),
            Kind::FutureCertificateRejected => Status::FutureCertificateRejected(detail),
            Kind::ExpiredCertificateRejected => Status::ExpiredCertificateRejected(detail),
            Kind::Unknown => Status::Unknown(detail),
        }
    }

    /// What the code stood for.
    pub fn kind(&self) -> (r: Kind)
        ensures
            r == self.spec_kind(),
    {
        match self {
            Status::Input(_) => Kind::Input,
            Status::Success(_) => Kind::Success,
            Status::RedirectTemporary(_) => Kind::RedirectTemporary,
            Status::RedirectPermanent(_) => Kind::RedirectPermanent,
            Status::TemporaryFailure(_) => Kind::TemporaryFailure,
            Status::ServerUnavailable(_) => Kind::ServerUnavailable,
            Status::CGIError(_) => Kind::CGIError,
            Status::ProxyError(_) => Kind::ProxyError,
            Status::SlowDown(_) => Kind::SlowDown,
            Status::PermanentFailure(_) => Kind::PermanentFailure,
            Status::NotFound(_) => Kind::NotFound,
            Status::Gone(_) => Kind::Gone,
            Status::ProxyRequestRefused(_) => Kind::ProxyRequestRefused,
            Status::BadRequest(_) => Kind::BadRequest,
            Status::ClientCertificateRequired(_) => Kind::ClientCertificateRequired,
            Status::TransientCertificateRequired(_) => Kind::TransientCertificateRequired,
            Status::AuthorisedCertificatedRequired(_) => Kind::AuthorisedCertificatedRequired,
            Status::CertificateNotAccepted(_) => Kind::CertificateNotAccepted,
            Status::FutureCertificateRejected(_) => Kind::FutureCertificateRejected,
            Status::ExpiredCertificateRejected(_) => Kind::ExpiredCertificateRejected,
            Status::Unknown(_) => Kind::Unknown,
        }
    }

    /// The detail that followed the code.
    pub fn detail(&self) -> (r: &str)
        ensures
            r@ == self.spec_detail(),
    {
        match self {
            Status::Input(d) => d.as_str(),
            Status::Success(d) => d.as_str(),
            Status::RedirectTemporary(d) => d.as_str(),
            Status::RedirectPermanent(d) => d.as_str(),
            Status::TemporaryFailure(d) => d.as_str(),
            Status::ServerUnavailable(d) => d.as_str(),
            Status::CGIError(d) => d.as_str(),
            Status::ProxyError(d) => d.as_str(),
            Status::SlowDown(d) => d.as_str(),
            Status::PermanentFailure(d) => d.as_str(),
            Status::NotFound(d) => d.as_str(),
            Status::Gone(d) => d.as_str(),
            Status::ProxyRequestRefused(d) => d.as_str(),
            Status::BadRequest(d) => d.as_str(),
            Status::ClientCertificateRequired(d) => d.as_str(),
            Status::TransientCertificateRequired(d) => d.as_str(),
            Status::AuthorisedCertificatedRequired(d) => d.as_str(),
            Status::CertificateNotAccepted(d) => d.as_str(),
            Status::FutureCertificateRejected(d) => d.as_str(),
            Status::ExpiredCertificateRejected(d) => d.as_str(),
            Status::Unknown(d) => d.as_str(),
        }
    }

    /// Decodes a status line. A line that does not begin with two digits
    /// and a space is `Malformed`; every other line decodes.
    pub fn from_str(line: &str) -> (r: Result<Status, StatusError>)
        ensures
            view_status(r) == spec_status(line@),
    {
        let chars = chars_of(line);
        let n = chars.len();
        if n < 3 || !digit(chars[0]) || !digit(chars[1]) || chars[2] != ' ' {
            return Err(StatusError::Malformed);
        }
        let kind = kind_of(chars[0], chars[1]);
        let blank = blank_from(&chars, 3);
        let detail = match kind {
            Kind::Success => if blank {
                proof {
                    reveal_strlit("text/gemini");
                    assert("text/gemini"@ =~= default_mime());
                }
                "text/gemini".to_owned()
            } else {
                line.substring_char(3, n).to_owned()
            },
            _ => line.substring_char(3, n).to_owned(),
        };
        Ok(Status::of(kind, detail))
    }
}

} // verus!
