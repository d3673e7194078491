//! Turning a reference into an absolute address, in the context of the
//! navigation history.

use crate::address::{
    parsed, view_opt, view_result, view_str, Address, AddressView, UrlError,
};
use crate::history::{current_directory, current_host, get_current_host, get_current_url, History};
use crate::protocols::Scheme;
use crate::text::starts_with;
use vstd::prelude::*;

verus! {

/// The text that is read as an address when `reference` is followed
/// under `scheme`, where `host` is the host of the current page and
/// `directory` the directory of the current page:
///
/// 1. a reference that begins with the scheme and `://` stands as it is;
/// 2. one that begins with `//` gets the scheme and a colon in front;
/// 3. with a current host, one that begins with `/` is a path on that
///    host;
/// 4. with a current host, any other is appended to the directory of the
///    current page, and there is no text if that directory is unknown;
/// 5. without a current host the reference is taken as a host.
pub open spec fn spec_candidate(
    scheme: Scheme,
    reference: Seq<char>,
    host: Option<Seq<char>>,
    directory: Option<Seq<char>>,
) -> Option<Seq<char>> {
    if scheme.spec_prefix().is_prefix_of(reference) {
        Some(reference)
    } else if seq!['/', '/'].is_prefix_of(reference) {
        Some(scheme.spec_name() + seq![':'] + reference)
    } else {
        match host {
            Some(h) => if seq!['/'].is_prefix_of(reference) {
                Some(scheme.spec_prefix() + h + reference)
            } else {
                match directory {
                    Some(d) => Some(d + reference),
                    None => None,
                }
            },
            None => Some(scheme.spec_prefix() + reference),
        }
    }
}

/// The address that `reference` resolves to under `scheme` in the history
/// `h`: what reading the text of [`spec_candidate`] gives.
pub open spec fn spec_resolve(scheme: Scheme, reference: Seq<char>, h: Seq<AddressView>) -> Result<
    AddressView,
    UrlError,
> {
    match spec_candidate(scheme, reference, current_host(h), current_directory(h)) {
        Some(text) => parsed(text),
        None => Err(UrlError::Invalid),
    }
}

/// A borrowed view of a string that may be absent.
pub fn borrow_opt(s: &Option<String>) -> (r: Option<&str>)
    ensures
        view_str(r) == view_opt(*s),
{
    match s {
        Some(s) => Some(s.as_str()),
        None => None,
    }
}

/// Builds the text of [`spec_candidate`].
pub fn candidate(
    scheme: Scheme,
    reference: &str,
    host: Option<&str>,
    directory: Option<&str>,
) -> (r: Option<String>)
    ensures
        view_opt(r) == spec_candidate(scheme, reference@, view_str(host), view_str(directory)),
{
    proof {
        reveal_strlit("//");
        reveal_strlit("/");
        reveal_strlit(":");
        assert("//"@ =~= seq!['/', '/']);
        assert("/"@ =~= seq!['/']);
        assert(":"@ =~= seq![':']);
    }
    if starts_with(reference, scheme.prefix()) {
        Some(reference.to_owned())
    } else if starts_with(reference, "//") {
        let mut s = String::from_str(scheme.name());
        s.append(":");
        s.append(reference);
        Some(s)
    } else {
        match host {
            Some(h) => {
                if starts_with(reference, "/") {
                    let mut s = String::from_str(scheme.prefix());
                    s.append(h);
                    s.append(reference);
                    Some(s)
                } else {
                    match directory {
                        Some(d) => {
                            let mut s = String::from_str(d);
                            s.append(reference);
                            Some(s)
                        },
                        None => None,
                    }
                }
            },
            None => {
                let mut s = String::from_str(scheme.prefix());
                s.append(reference);
                Some(s)
            },
        }
    }
}

/// Resolves `reference` under `scheme` against the current page of
/// `history`. The history is only read.
pub fn resolve(scheme: Scheme, reference: &str, history: &History) -> (r: Result<Address, UrlError>)
    ensures
        view_result(r) == spec_resolve(scheme, reference@, history@),
{
    proof {
        reveal_strlit("/");
        assert("/"@ =~= seq!['/']);
    }
    let host = get_current_host(history);
    let document_relative = host.is_some() && !starts_with(reference, scheme.prefix())
        && !starts_with(reference, "/");
    let directory = if document_relative {
        get_current_url(history)
    } else {
        None
    };
    proof {
        if !document_relative && host is Some && !seq!['/'].is_prefix_of(reference@) {
            assert(scheme.spec_prefix().is_prefix_of(reference@));
        }
        if seq!['/', '/'].is_prefix_of(reference@) {
            assert(reference@.subrange(0, 1) =~= reference@.subrange(0, 2).subrange(0, 1));
            assert(seq!['/', '/'].subrange(0, 1) =~= seq!['/']);
        }
    }
    match candidate(scheme, reference, borrow_opt(&host), borrow_opt(&directory)) {
        Some(text) => Address::parse(text.as_str()),
        None => Err(UrlError::Invalid),
    }
}

/// Resolves `url` as a Gemini reference.
pub fn make(url: &str, history: &History) -> (r: Result<Address, UrlError>)
    ensures
        view_result(r) == spec_resolve(Scheme::Gemini, url@, history@),
{
    resolve(Scheme::Gemini, url, history)
}

/// A reference that already begins with the scheme and `://` resolves to
/// what reading it alone gives, whatever the history holds. So where the
/// parser returns such a reference as it is written, resolving returns it
/// unchanged.
pub proof fn lemma_absolute_reference_resolves_to_itself(
    scheme: Scheme,
    reference: Seq<char>,
    h: Seq<AddressView>,
)
    requires
        scheme.spec_prefix().is_prefix_of(reference),
    ensures
        spec_resolve(scheme, reference, h) == parsed(reference),
        forall|a: AddressView|
            parsed(reference) == Ok::<AddressView, UrlError>(a) && a.text == reference
                ==> spec_resolve(scheme, reference, h) is Ok && spec_resolve(
                scheme,
                reference,
                h,
            ).unwrap().text == reference,
{
}

/// Resolving twice is resolving once, as far as the parser reads back
/// what it wrote: where an absolute reference reads as the address `a`,
/// and the text of `a` still begins with the scheme and `://` and reads
/// as `a` again, resolving the reference gives `a`, and resolving the
/// text of `a` gives `a` too, in whatever history.
pub proof fn lemma_resolving_again_changes_nothing(
    scheme: Scheme,
    reference: Seq<char>,
    a: AddressView,
    h: Seq<AddressView>,
    later: Seq<AddressView>,
)
    requires
        scheme.spec_prefix().is_prefix_of(reference),
        parsed(reference) == Ok::<AddressView, UrlError>(a),
        scheme.spec_prefix().is_prefix_of(a.text),
        parsed(a.text) == Ok::<AddressView, UrlError>(a),
    ensures
        spec_resolve(scheme, reference, h) == Ok::<AddressView, UrlError>(a),
        spec_resolve(scheme, a.text, later) == Ok::<AddressView, UrlError>(a),
{
}

/// On the host `host`, the path `path` is reached alike by the full
/// address, by the address without its scheme, and by the path alone
/// while a page of that host is current: the three references resolve to
/// the same address, whatever the directory of the current page.
pub proof fn lemma_absolute_forms_agree(
    scheme: Scheme,
    host: Seq<char>,
    path: Seq<char>,
    h: Seq<AddressView>,
)
    requires
        current_host(h) == Some(host),
        path.len() > 0,
        path[0] == '/',
        !seq!['/', '/'].is_prefix_of(path),
    ensures
        spec_resolve(scheme, scheme.spec_prefix() + host + path, h) == parsed(
            scheme.spec_prefix() + host + path,
        ),
        spec_resolve(scheme, seq!['/', '/'] + host + path, h) == parsed(
            scheme.spec_prefix() + host + path,
        ),
        spec_resolve(scheme, path, h) == parsed(scheme.spec_prefix() + host + path),
{
    let prefix = scheme.spec_prefix();
    let full = prefix + host + path;
    assert(full.subrange(0, prefix.len() as int) =~= prefix);
    let short = seq!['/', '/'] + host + path;
    assert(short.subrange(0, 2) =~= seq!['/', '/']);
    assert(short[0] == '/');
    assert(prefix[0] != '/');
    assert(!prefix.is_prefix_of(short)) by {
        if prefix.is_prefix_of(short) {
            assert(short.subrange(0, prefix.len() as int)[0] == prefix[0]);
        }
    }
    assert(scheme.spec_name() + seq![':'] + short =~= full);
    assert(!prefix.is_prefix_of(path)) by {
        if prefix.is_prefix_of(path) {
            assert(path.subrange(0, prefix.len() as int)[0] == prefix[0]);
        }
    }
    assert(path.subrange(0, 1) =~= seq!['/']);
}

} // verus!
