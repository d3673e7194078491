//! The lines of a Gopher menu.

use crate::text::{chars_of, find_from, first_at, lines, spec_lines, string_from, views};
use vstd::prelude::*;

verus! {

/// One line of a Gopher menu.
#[derive(Debug, Clone, PartialEq, Eq)]
pub enum TextElement {
    /// A link that leaves Gopher, with the whole line.
    ExternalLinkItem(String),
    /// A link to a Gopher item, with the whole line.
    LinkItem(String),
    /// An image, with its label.
    Image(String),
    /// Plain text.
    Text(String),
}

/// The error of reading a line. No line gives it: every line is at least
/// plain text.
#[derive(Debug, Clone, Copy, PartialEq, Eq, Hash)]
pub struct ParseError;

/// The mathematical value of a [`TextElement`].
pub enum Line {
    ExternalLinkItem(Seq<char>),
    LinkItem(Seq<char>),
    Image(Seq<char>),
    Text(Seq<char>),
}

impl View for TextElement {
    type V = Line;

    open spec fn view(&self) -> Line {
        match self {
            TextElement::ExternalLinkItem(s) => Line::ExternalLinkItem(s@),
            TextElement::LinkItem(s) => Line::LinkItem(s@),
            TextElement::Image(s) => Line::Image(s@),
            TextElement::Text(s) => Line::Text(s@),
        }
    }
}

/// Where the field of `line` that begins at `start` ends: at the next
/// tab, or at the end of the line.
pub open spec fn field_end(line: Seq<char>, start: int) -> int {
    first_at(line, start, '\t')
}

/// Where field number `k` of `line` begins, counting from 0, if the line
/// has that many fields. Fields are separated by tabs.
pub open spec fn field_start(line: Seq<char>, k: nat) -> Option<int>
    decreases k,
{
    if k == 0 {
        Some(0)
    } else {
        match field_start(line, (k - 1) as nat) {
            Some(start) => if 0 <= field_end(line, start) < line.len() {
                Some(field_end(line, start) + 1)
            } else {
                None
            },
            None => None,
        }
    }
}

/// Field number `k` of `line`, if the line has that many fields.
pub open spec fn field(line: Seq<char>, k: nat) -> Option<Seq<char>> {
    match field_start(line, k) {
        Some(start) => Some(line.subrange(start, field_end(line, start))),
        None => None,
    }
}

/// The label of a menu line: its first field without the character in
/// front, which is the item type.
pub open spec fn label(line: Seq<char>) -> Seq<char> {
    if field_end(line, 0) >= 1 {
        line.subrange(1, field_end(line, 0))
    } else {
        Seq::empty()
    }
}

/// Computes [`label`] for a line whose first field ends at `end`.
pub fn label_of(line: &Vec<char>, end: usize) -> (r: String)
    requires
        end == field_end(line@, 0),
        end <= line.len(),
    ensures
        r@ == label(line@),
{
    if end >= 1 {
        string_from(line, 1, end)
    } else {
        String::new()
    }
}

/// What `line` is. A line without a tab is plain text. Of the others the
/// first character decides: `0` and `1` are links, `i` is text, `h` a
/// link that leaves Gopher, `I` an image, and any other is plain text.
pub open spec fn spec_classify(line: Seq<char>) -> Line {
    if field_start(line, 1) is None {
        Line::Text(line)
    } else if line[0] == '0' || line[0] == '1' {
        Line::LinkItem(line)
    } else if line[0] == 'i' {
        Line::Text(label(line))
    } else if line[0] == 'h' {
        Line::ExternalLinkItem(line)
    } else if line[0] == 'I' {
        Line::Image(label(line))
    } else {
        Line::Text(line)
    }
}

/// What the outcome of reading a line holds.
pub open spec fn view_line(r: Result<TextElement, ParseError>) -> Option<Line> {
    match r {
        Ok(e) => Some(e@),
        Err(_) => None,
    }
}

/// What each outcome in `v` holds.
pub open spec fn view_lines(v: Seq<Result<TextElement, ParseError>>) -> Seq<Option<Line>> {
    v.map_values(|e: Result<TextElement, ParseError>| view_line(e))
}

/// What reading every line of `content` gives.
pub open spec fn spec_parse(content: Seq<char>) -> Seq<Option<Line>> {
    spec_lines(content).map_values(|l: Seq<char>| Some(spec_classify(l)))
}

/// The field after the one that begins at `start`: where the field at
/// `start` ends and, if a tab ends it, where the next begins.
pub fn next_field(line: &Vec<char>, start: usize) -> (r: (usize, Option<usize>))
    requires
        start <= line.len(),
    ensures
        r.0 == field_end(line@, start as int),
        start <= r.0 <= line.len(),
        r.1 is Some == (r.0 < line.len()),
        r.1 is Some ==> r.1.unwrap() == r.0 + 1,
{
    let end = find_from(line, start, '\t');
    if end < line.len() {
        (end, Some(end + 1))
    } else {
        (end, None)
    }
}

impl TextElement {
    /// Reads one line. Every line reads as something: the result is
    /// never an error.
    pub fn from_str(line: &str) -> (r: Result<TextElement, ParseError>)
        ensures
            view_line(r) == Some(spec_classify(line@)),
    {
        let chars = chars_of(line);
        let (end, next) = next_field(&chars, 0);
        assert(field_start(chars@, 1) == if end < chars.len() {
            Some(end + 1)
        } else {
            None::<int>
        }) by {
            assert(field_start(chars@, 0) == Some(0int));
        }
        if next.is_none() {
            return Ok(TextElement::Text(line.to_owned()));
        }
        let first = chars[0];
        if first == '0' || first == '1' {
            Ok(TextElement::LinkItem(line.to_owned()))
        } else if first == 'i' {
            Ok(TextElement::Text(label_of(&chars, end)))
        } else if first == 'h' {
            Ok(TextElement::ExternalLinkItem(line.to_owned()))
        } else if first == 'I' {
            Ok(TextElement::Image(label_of(&chars, end)))
        } else {
            Ok(TextElement::Text(line.to_owned()))
        }
    }
}

/// Reads a menu line by line.
pub fn parse(content: String) -> (r: Vec<Result<TextElement, ParseError>>)
    ensures
        view_lines(r@) == spec_parse(content@),
{
    let all = lines(content.as_str());
    let mut parsed: Vec<Result<TextElement, ParseError>> = Vec::new();
    let mut i: usize = 0;
    while i < all.len()
        invariant
            i <= all.len(),
            parsed.len() == i,
            forall|j: int|
                0 <= j < i ==> view_line(#[trigger] parsed[j]) == Some(spec_classify(all[j]@)),
        decreases all.len() - i,
    {
        let e = TextElement::from_str(all[i].as_str());
        parsed.push(e);
        i += 1;
    }
    assert(view_lines(parsed@) =~= spec_parse(content@)) by {
        assert(views(all@) == spec_lines(content@));
        assert forall|j: int| 0 <= j < parsed.len() implies view_lines(parsed@)[j] == spec_parse(
            content@,
        )[j] by {
            assert(views(all@)[j] == all[j]@);
        }
    }
    parsed
}

} // verus!
