//! The links of a Gemini document.

use crate::address::{parse_url, url_parse, Address, AddressView, ParseFailure};
use crate::gemini::parser::{is_link, link};
use crate::protocols::{same, Scheme};
use crate::text::{
    after_spaces, after_word, chars_of, holds_from, is_space, lemma_after_spaces, lemma_after_word,
    skip_spaces, skip_word, string_from,
};
use vstd::prelude::*;

verus! {

/// Where a link line of a Gemini document leads, with its label.
#[derive(Debug, Clone, PartialEq, Eq)]
pub enum Link {
    Finger(Address, String),
    Gemini(Address, String),
    Gopher(Address, String),
    Http(Address, String),
    /// A reference that is not absolute, as it was written.
    Relative(String, String),
    /// An address of a scheme that the engine does not follow.
    Unknown(Address, String),
}

/// The error of a line that is no link.
#[derive(Debug, Clone, Copy, PartialEq, Eq, Hash)]
pub struct ParseError;

/// The mathematical value of a [`Link`].
pub enum LinkView {
    Finger(AddressView, Seq<char>),
    Gemini(AddressView, Seq<char>),
    Gopher(AddressView, Seq<char>),
    Http(AddressView, Seq<char>),
    Relative(Seq<char>, Seq<char>),
    Unknown(AddressView, Seq<char>),
}

impl View for Link {
    type V = LinkView;

    open spec fn view(&self) -> LinkView {
        match self {
            Link::Finger(a, l) => LinkView::Finger(a@, l@),
            Link::Gemini(a, l) => LinkView::Gemini(a@, l@),
            Link::Gopher(a, l) => LinkView::Gopher(a@, l@),
            Link::Http(a, l) => LinkView::Http(a@, l@),
            Link::Relative(r, l) => LinkView::Relative(r@, l@),
            Link::Unknown(a, l) => LinkView::Unknown(a@, l@),
        }
    }
}

/// What the outcome of reading a line holds.
pub open spec fn view_outcome(r: Result<Link, ParseError>) -> Option<LinkView> {
    match r {
        Ok(l) => Some(l@),
        Err(_) => None,
    }
}

/// The link for the target `url` with the label `label`, where `parsed`
/// is what reading `url` as an address gave. An address is told by its
/// scheme. A target that does not read as an address, for whatever
/// reason, is a relative reference and is kept as written.
pub open spec fn spec_classify(
    parsed: Result<AddressView, ParseFailure>,
    url: Seq<char>,
    label: Seq<char>,
) -> LinkView {
    match parsed {
        Ok(a) => if a.scheme == Scheme::Finger.spec_name() {
            LinkView::Finger(a, label)
        } else if a.scheme == Scheme::Gemini.spec_name() {
            LinkView::Gemini(a, label)
        } else if a.scheme == Scheme::Gopher.spec_name() {
            LinkView::Gopher(a, label)
        } else if a.scheme == "http"@ || a.scheme == "https"@ {
            LinkView::Http(a, label)
        } else {
            LinkView::Unknown(a, label)
        },
        Err(_) => LinkView::Relative(url, label),
    }
}

/// Where the target of a link line begins: after `=>` and the white
/// space that follows it.
pub open spec fn target_start(line: Seq<char>) -> int {
    after_spaces(line, 2)
}

/// Where the target of a link line ends: at the next white space.
pub open spec fn target_end(line: Seq<char>) -> int {
    after_word(line, target_start(line))
}

/// The target of a link line.
pub open spec fn target(line: Seq<char>) -> Seq<char> {
    line.subrange(target_start(line), target_end(line))
}

/// The label of a link line: what follows the target and the white space
/// after it, up to the end of the line.
pub open spec fn label(line: Seq<char>) -> Seq<char> {
    line.subrange(after_spaces(line, target_end(line)), line.len() as int)
}

/// The target and the label of `line`, if it is a link line.
pub open spec fn spec_parts(line: Seq<char>) -> Option<(Seq<char>, Seq<char>)> {
    if is_link(line) {
        Some((target(line), label(line)))
    } else {
        None
    }
}

/// The link that `line` reads as: none unless it is a link line, else
/// what [`spec_classify`] makes of its target and label.
pub open spec fn spec_link(line: Seq<char>) -> Option<LinkView> {
    match spec_parts(line) {
        Some((url, text)) => Some(spec_classify(url_parse(url), url, text)),
        None => None,
    }
}

/// Builds the link of [`spec_classify`].
pub fn classify(parsed: Result<Address, ParseFailure>, url: String, label: String) -> (r: Link)
    ensures
        r@ == spec_classify(crate::address::view_outcome(parsed), url@, label@),
{
    match parsed {
        Ok(a) => {
            if same(a.scheme(), Scheme::Finger.name()) {
                Link::Finger(a, label)
            } else if same(a.scheme(), Scheme::Gemini.name()) {
                Link::Gemini(a, label)
            } else if same(a.scheme(), Scheme::Gopher.name()) {
                Link::Gopher(a, label)
            } else if same(a.scheme(), "http") || same(a.scheme(), "https") {
                Link::Http(a, label)
            } else {
                Link::Unknown(a, label)
            }
        },
        Err(_) => Link::Relative(url, label),
    }
}

/// The link for the target `url` with the label `label`.
pub fn make_link(url: String, label: String) -> (r: Link)
    ensures
        r@ == spec_classify(url_parse(url@), url@, label@),
{
    let parsed = parse_url(url.as_str());
    classify(parsed, url, label)
}

/// Computes [`spec_parts`].
pub fn parts(line: &str) -> (r: Option<(String, String)>)
    ensures
        match r {
            Some((url, text)) => spec_parts(line@) == Some((url@, text@)),
            None => spec_parts(line@) is None,
        },
{
    let chars = chars_of(line);
    if !link(&chars) {
        return None;
    }
    let from = skip_spaces(&chars, 2);
    let to = skip_word(&chars, from);
    let rest = skip_spaces(&chars, to);
    Some((string_from(&chars, from, to), string_from(&chars, rest, chars.len())))
}

impl Link {
    /// Reads one line of a document as a link. Every link line reads as
    /// a link; any other line is an error.
    pub fn from_str(line: &str) -> (r: Result<Link, ParseError>)
        ensures
            view_outcome(r) == spec_link(line@),
    {
        match parts(line) {
            Some((url, text)) => Ok(make_link(url, text)),
            None => Err(ParseError),
        }
    }
}

/// The link line written as `=> `, a target, a space and a label.
pub open spec fn link_line(target: Seq<char>, text: Seq<char>) -> Seq<char> {
    seq!['=', '>', ' '] + target + seq![' '] + text
}

/// Whether `target` and `text` can stand as the target and the label of
/// a link line: the target is not empty and holds no white space, the
/// label does not begin with white space and holds no line feed.
pub open spec fn writable(target: Seq<char>, text: Seq<char>) -> bool {
    &&& target.len() > 0
    &&& forall|i: int| 0 <= i < target.len() ==> !is_space(#[trigger] target[i])
    &&& text.len() > 0 ==> !is_space(text[0])
    &&& forall|i: int| 0 <= i < text.len() ==> #[trigger] text[i] != '\n'
}

/// A link line reads back as the target and the label that it was
/// written with.
pub proof fn lemma_link_line_reads_back(target: Seq<char>, text: Seq<char>)
    requires
        writable(target, text),
    ensures
        spec_parts(link_line(target, text)) == Some((target, text)),
{
    let line = link_line(target, text);
    let n = target.len() as int;
    assert(is_space(' '));
    assert(line.len() == 3 + n + 1 + text.len());
    assert(line[2] == ' ');
    assert forall|i: int| 3 <= i < 3 + n implies !is_space(line[i]) by {
        assert(line[i] == target[i - 3]);
    }
    assert(line[3 + n] == ' ');
    assert forall|i: int| 3 + n + 1 <= i < line.len() implies line[i] == text[i - 3 - n - 1] by {}
    if text.len() > 0 {
        assert(line[3 + n + 1] == text[0]);
    }
    lemma_after_spaces(line, 2, 3);
    lemma_after_word(line, 3, 3 + n);
    lemma_after_spaces(line, 3 + n, 3 + n + 1);
    assert(!holds_from(line, 3 + n + 1, '\n'));
    assert(line.subrange(3, 3 + n) =~= target);
    assert(line.subrange(3 + n + 1, line.len() as int) =~= text);
}

} // verus!
