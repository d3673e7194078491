//! The links of a Gopher menu.

use crate::address::{parse_url, url_parse, Address, AddressView, ParseFailure};
use crate::gopher::parser::{field, field_end, field_start, label, label_of, next_field};
use crate::protocols::{same, Scheme};
use crate::text::{chars_of, lemma_first_at, string_from};
use vstd::prelude::*;

verus! {

/// Where a line of a Gopher menu leads, with its label.
#[derive(Debug, Clone, PartialEq, Eq)]
pub enum Link {
    Gemini(Address, String),
    Gopher(Address, String),
    Http(Address, String),
    /// A reference that is not absolute, as it was written.
    Relative(String, String),
    /// An address of a scheme that the engine does not follow.
    Unknown(Address, String),
}

/// The error of a line that is no link.
#[derive(Debug, Clone, Copy, PartialEq, Eq, Hash)]
pub struct ParseError;

/// The mathematical value of a [`Link`].
pub enum LinkView {
    Gemini(AddressView, Seq<char>),
    Gopher(AddressView, Seq<char>),
    Http(AddressView, Seq<char>),
    Relative(Seq<char>, Seq<char>),
    Unknown(AddressView, Seq<char>),
}

impl View for Link {
    type V = LinkView;

    open spec fn view(&self) -> LinkView {
        match self {
            Link::Gemini(a, l) => LinkView::Gemini(a@, l@),
            Link::Gopher(a, l) => LinkView::Gopher(a@, l@),
            Link::Http(a, l) => LinkView::Http(a@, l@),
            Link::Relative(r, l) => LinkView::Relative(r@, l@),
            Link::Unknown(a, l) => LinkView::Unknown(a@, l@),
        }
    }
}

/// What a link holds, if there is one.
pub open spec fn view_link(r: Option<Link>) -> Option<LinkView> {
    match r {
        Some(l) => Some(l@),
        None => None,
    }
}

/// What the outcome of reading a line holds.
pub open spec fn view_outcome(r: Result<Link, ParseError>) -> Option<LinkView> {
    match r {
        Ok(l) => Some(l@),
        Err(_) => None,
    }
}

/// The link for the target `url` with the label `label`, where `parsed`
/// is what reading `url` as an address gave. An address is told by its
/// scheme; a relative reference is kept as written; text that is neither
/// gives no link.
pub open spec fn spec_classify(
    parsed: Result<AddressView, ParseFailure>,
    url: Seq<char>,
    label: Seq<char>,
) -> Option<LinkView> {
    match parsed {
        Ok(a) => if a.scheme == Scheme::Gemini.spec_name() {
            Some(LinkView::Gemini(a, label))
        } else if a.scheme == Scheme::Gopher.spec_name() {
            Some(LinkView::Gopher(a, label))
        } else if a.scheme == "http"@ || a.scheme == "https"@ {
            Some(LinkView::Http(a, label))
        } else {
            Some(LinkView::Unknown(a, label))
        },
        Err(ParseFailure::RelativeWithoutBase) => Some(LinkView::Relative(url, label)),
        Err(ParseFailure::Malformed) => None,
    }
}

/// The selector of a menu line as a path: with a slash in front unless
/// it has one.
pub open spec fn as_path(selector: Seq<char>) -> Seq<char> {
    if selector.len() > 0 && selector[0] == '/' {
        selector
    } else {
        seq!['/'] + selector
    }
}

/// The address in text and the label of a menu line of the form
/// `label`, tab, `selector`, tab, `host`, tab, `port`: the Gopher
/// address of the selector on that host and port, and the label without
/// the item type in front. A line with fewer than four fields has none.
pub open spec fn spec_menu_target(line: Seq<char>) -> Option<(Seq<char>, Seq<char>)> {
    if field(line, 3) is Some {
        Some(
            (
                Scheme::Gopher.spec_prefix() + field(line, 2).unwrap() + seq![':'] + field(
                    line,
                    3,
                ).unwrap() + as_path(field(line, 1).unwrap()),
                label(line),
            ),
        )
    } else {
        None
    }
}

/// The link that `line` reads as. A line that begins with `0` or `1` is
/// a menu line and leads to the Gopher address of [`spec_menu_target`].
/// A line that begins with `h` leads where its second field says. A line
/// that begins with `[` leads where its text from the fifth character on
/// says, and is its own label. No other line is a link.
pub open spec fn spec_link(line: Seq<char>) -> Option<LinkView> {
    if line.len() > 0 && (line[0] == '0' || line[0] == '1') {
        match spec_menu_target(line) {
            Some((url, text)) => match url_parse(url) {
                Ok(a) => Some(LinkView::Gopher(a, text)),
                Err(_) => None,
            },
            None => None,
        }
    } else if line.len() > 0 && line[0] == 'h' {
        match field(line, 1) {
            Some(url) => spec_classify(url_parse(url), url, label(line)),
            None => None,
        }
    } else if line.len() >= 4 && line[0] == '[' {
        let url = line.subrange(4, line.len() as int);
        spec_classify(url_parse(url), url, line)
    } else {
        None
    }
}

/// Builds the link of [`spec_classify`].
pub fn classify(parsed: Result<Address, ParseFailure>, url: String, label: String) -> (r: Option<
    Link,
>)
    ensures
        view_link(r) == spec_classify(crate::address::view_outcome(parsed), url@, label@),
{
    match parsed {
        Ok(a) => {
            if same(a.scheme(), Scheme::Gemini.name()) {
                Some(Link::Gemini(a, label))
            } else if same(a.scheme(), Scheme::Gopher.name()) {
                Some(Link::Gopher(a, label))
            } else if same(a.scheme(), "http") || same(a.scheme(), "https") {
                Some(Link::Http(a, label))
            } else {
                Some(Link::Unknown(a, label))
            }
        },
        Err(ParseFailure::RelativeWithoutBase) => Some(Link::Relative(url, label)),
        Err(ParseFailure::Malformed) => None,
    }
}

/// The link for the target `url` with the label `label`.
pub fn make_link(url: String, label: String) -> (r: Option<Link>)
    ensures
        view_link(r) == spec_classify(url_parse(url@), url@, label@),
{
    let parsed = parse_url(url.as_str());
    classify(parsed, url, label)
}

/// Computes [`spec_menu_target`].
pub fn menu_target(line: &str) -> (r: Option<(String, String)>)
    ensures
        match r {
            Some((url, text)) => spec_menu_target(line@) == Some((url@, text@)),
            None => spec_menu_target(line@) is None,
        },
{
    let chars = chars_of(line);
    assert(field_start(chars@, 0) == Some(0int));
    let (end0, start1) = next_field(&chars, 0);
    let start1 = match start1 {
        Some(s) => s,
        None => {
            assert(field_start(chars@, 1) is None);
            assert(field_start(chars@, 2) is None);
            assert(field_start(chars@, 3) is None);
            return None;
        },
    };
    assert(field_start(chars@, 1) == Some(start1 as int));
    let (end1, start2) = next_field(&chars, start1);
    let start2 = match start2 {
        Some(s) => s,
        None => {
            assert(field_start(chars@, 2) is None);
            assert(field_start(chars@, 3) is None);
            return None;
        },
    };
    assert(field_start(chars@, 2) == Some(start2 as int));
    let (end2, start3) = next_field(&chars, start2);
    let start3 = match start3 {
        Some(s) => s,
        None => {
            assert(field_start(chars@, 3) is None);
            return None;
        },
    };
    assert(field_start(chars@, 3) == Some(start3 as int));
    let (end3, _) = next_field(&chars, start3);
    proof {
        reveal_strlit(":");
        reveal_strlit("/");
        assert(":"@ =~= seq![':']);
        assert("/"@ =~= seq!['/']);
    }
    let mut url = String::from_str(Scheme::Gopher.prefix());
    url.append(string_from(&chars, start2, end2).as_str());
    url.append(":");
    url.append(string_from(&chars, start3, end3).as_str());
    if !(end1 > start1 && chars[start1] == '/') {
        url.append("/");
    }
    url.append(string_from(&chars, start1, end1).as_str());
    let text = label_of(&chars, end0);
    proof {
        let selector = chars@.subrange(start1 as int, end1 as int);
        assert(field(chars@, 1) == Some(selector));
        if end1 > start1 {
            assert(selector[0] == chars[start1 as int]);
        }
        assert(url@ =~= spec_menu_target(chars@).unwrap().0);
    }
    Some((url, text))
}

impl Link {
    /// Reads one line of a menu as a link.
    pub fn from_str(line: &str) -> (r: Result<Link, ParseError>)
        ensures
            view_outcome(r) == spec_link(line@),
    {
        let chars = chars_of(line);
        if chars.len() == 0 {
            return Err(ParseError);
        }
        let first = chars[0];
        if first == '0' || first == '1' {
            match menu_target(line) {
                Some((url, text)) => match parse_url(url.as_str()) {
                    Ok(a) => Ok(Link::Gopher(a, text)),
                    Err(_) => Err(ParseError),
                },
                None => Err(ParseError),
            }
        } else if first == 'h' {
            assert(field_start(chars@, 0) == Some(0int));
            let (end0, start1) = next_field(&chars, 0);
            match start1 {
                Some(start1) => {
                    assert(field_start(chars@, 1) == Some(start1 as int));
                    let (end1, _) = next_field(&chars, start1);
                    let url = string_from(&chars, start1, end1);
                    let text = label_of(&chars, end0);
                    match make_link(url, text) {
                        Some(link) => Ok(link),
                        None => Err(ParseError),
                    }
                },
                None => {
                    assert(field_start(chars@, 1) is None);
                    Err(ParseError)
                },
            }
        } else if first == '[' && chars.len() >= 4 {
            let url = string_from(&chars, 4, chars.len());
            match make_link(url, line.to_owned()) {
                Some(link) => Ok(link),
                None => Err(ParseError),
            }
        } else {
            Err(ParseError)
        }
    }
}

/// The menu line written as an item type, a label, and a selector, a
/// host and a port, each behind a tab.
pub open spec fn menu_line(
    kind: char,
    text: Seq<char>,
    selector: Seq<char>,
    host: Seq<char>,
    port: Seq<char>,
) -> Seq<char> {
    seq![kind] + text + seq!['\t'] + selector + seq!['\t'] + host + seq!['\t'] + port
}

/// Whether `s` holds no tab.
pub open spec fn tabless(s: Seq<char>) -> bool {
    forall|i: int| 0 <= i < s.len() ==> #[trigger] s[i] != '\t'
}

/// A menu line reads back as the Gopher address of the selector on the
/// host and port that it was written with, and as its label.
pub proof fn lemma_menu_line_reads_back(
    kind: char,
    text: Seq<char>,
    selector: Seq<char>,
    host: Seq<char>,
    port: Seq<char>,
)
    requires
        kind != '\t',
        tabless(text),
        tabless(selector),
        tabless(host),
        tabless(port),
    ensures
        spec_menu_target(menu_line(kind, text, selector, host, port)) == Some(
            (Scheme::Gopher.spec_prefix() + host + seq![':'] + port + as_path(selector), text),
        ),
{
    let line = menu_line(kind, text, selector, host, port);
    let e0 = 1 + text.len() as int;
    let e1 = e0 + 1 + selector.len();
    let e2 = e1 + 1 + host.len();
    let e3 = e2 + 1 + port.len();
    assert(line.len() == e3);
    assert(line[0] == kind);
    assert forall|i: int| 1 <= i < e0 implies line[i] != '\t' by {
        assert(line[i] == text[i - 1]);
    }
    assert(line[e0] == '\t');
    assert forall|i: int| e0 + 1 <= i < e1 implies line[i] != '\t' by {
        assert(line[i] == selector[i - e0 - 1]);
    }
    assert(line[e1] == '\t');
    assert forall|i: int| e1 + 1 <= i < e2 implies line[i] != '\t' by {
        assert(line[i] == host[i - e1 - 1]);
    }
    assert(line[e2] == '\t');
    assert forall|i: int| e2 + 1 <= i < e3 implies line[i] != '\t' by {
        assert(line[i] == port[i - e2 - 1]);
    }
    lemma_first_at(line, 0, e0, '\t');
    lemma_first_at(line, e0 + 1, e1, '\t');
    lemma_first_at(line, e1 + 1, e2, '\t');
    lemma_first_at(line, e2 + 1, e3, '\t');
    assert(field_end(line, 0) == e0);
    assert(field_start(line, 0) == Some(0int));
    assert(field_start(line, 1) == Some(e0 + 1));
    assert(field_start(line, 2) == Some(e1 + 1));
    assert(field_start(line, 3) == Some(e2 + 1));
    assert(line.subrange(1, e0) =~= text);
    assert(line.subrange(e0 + 1, e1) =~= selector);
    assert(line.subrange(e1 + 1, e2) =~= host);
    assert(line.subrange(e2 + 1, e3) =~= port);
}

} // verus!
