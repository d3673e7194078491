//! The lines of a Gemini document.

use crate::text::{
    after_spaces, after_word, chars_of, contains_from, holds_from, is_space, lines, skip_spaces,
    skip_word, space, spec_lines, string_from,
};
use vstd::prelude::*;

verus! {

/// One line of a Gemini document.
#[derive(Debug, Clone, PartialEq, Eq)]
pub enum TextElement {
    /// A first-level heading, with its text.
    H1(String),
    /// A second-level heading, with its text.
    H2(String),
    /// A third-level heading, with its text.
    H3(String),
    /// A list item, with its text.
    ListItem(String),
    /// A link, with the whole line.
    LinkItem(String),
    /// Plain text.
    Text(String),
    /// A line that turns preformatted text on or off, with the whole line.
    MonoText(String),
}

/// The error of reading a line. No line gives it: every line is at least
/// plain text.
#[derive(Debug, Clone, Copy, PartialEq, Eq, Hash)]
pub struct ParseError;

/// The mathematical value of a [`TextElement`].
pub enum Line {
    H1(Seq<char>),
    H2(Seq<char>),
    H3(Seq<char>),
    ListItem(Seq<char>),
    LinkItem(Seq<char>),
    Text(Seq<char>),
    MonoText(Seq<char>),
}

impl View for TextElement {
    type V = Line;

    open spec fn view(&self) -> Line {
        match self {
            TextElement::H1(s) => Line::H1(s@),
            TextElement::H2(s) => Line::H2(s@),
            TextElement::H3(s) => Line::H3(s@),
            TextElement::ListItem(s) => Line::ListItem(s@),
            TextElement::LinkItem(s) => Line::LinkItem(s@),
            TextElement::Text(s) => Line::Text(s@),
            TextElement::MonoText(s) => Line::MonoText(s@),
        }
    }
}

/// Whether `line` is a heading of the level `level`: that many `#`, then
/// white space, and no line feed after the white space.
pub open spec fn is_heading(line: Seq<char>, level: int) -> bool {
    &&& line.len() > level
    &&& forall|i: int| 0 <= i < level ==> line[i] == '#'
    &&& is_space(line[level])
    &&& !holds_from(line, after_spaces(line, level), '\n')
}

/// What follows the marker of `width` characters and the white space
/// after it.
pub open spec fn after_marker(line: Seq<char>, width: int) -> Seq<char> {
    line.subrange(after_spaces(line, width), line.len() as int)
}

/// Whether `line` is a list item: `*`, then white space, and no `*`
/// after the white space.
pub open spec fn is_list_item(line: Seq<char>) -> bool {
    &&& line.len() > 1
    &&& line[0] == '*'
    &&& is_space(line[1])
    &&& !holds_from(line, after_spaces(line, 1), '*')
}

/// Whether `line` is a link: `=>`, then optional white space, a target
/// of at least one character and without white space, optional white
/// space, and a label without a line feed. A line that has `=>` and no
/// target is no link.
pub open spec fn is_link(line: Seq<char>) -> bool {
    &&& line.len() >= 2
    &&& line[0] == '='
    &&& line[1] == '>'
    &&& after_spaces(line, 2) < after_word(line, after_spaces(line, 2))
    &&& !holds_from(line, after_spaces(line, after_word(line, after_spaces(line, 2))), '\n')
}

/// Whether `line` begins with three backticks.
pub open spec fn is_toggle(line: Seq<char>) -> bool {
    line.len() >= 3 && line[0] == '`' && line[1] == '`' && line[2] == '`'
}

/// What `line` is. The forms are tried in this order: heading of the
/// first, second and third level, list item, link, toggle of
/// preformatted text; anything else is plain text.
pub open spec fn spec_classify(line: Seq<char>) -> Line {
    if is_heading(line, 1) {
        Line::H1(after_marker(line, 1))
    } else if is_heading(line, 2) {
        Line::H2(after_marker(line, 2))
    } else if is_heading(line, 3) {
        Line::H3(after_marker(line, 3))
    } else if is_list_item(line) {
        Line::ListItem(after_marker(line, 1))
    } else if is_link(line) {
        Line::LinkItem(line)
    } else if is_toggle(line) {
        Line::MonoText(line)
    } else {
        Line::Text(line)
    }
}

/// What the outcome of reading a line holds.
pub open spec fn view_line(r: Result<TextElement, ParseError>) -> Option<Line> {
    match r {
        Ok(e) => Some(e@),
        Err(_) => None,
    }
}

/// What reading every line of `content` gives.
pub open spec fn spec_parse(content: Seq<char>) -> Seq<Option<Line>> {
    spec_lines(content).map_values(|l: Seq<char>| Some(spec_classify(l)))
}

/// What each outcome in `v` holds.
pub open spec fn view_lines(v: Seq<Result<TextElement, ParseError>>) -> Seq<Option<Line>> {
    v.map_values(|e: Result<TextElement, ParseError>| view_line(e))
}

/// Decides [`is_heading`].
pub fn heading(line: &Vec<char>, level: usize) -> (r: bool)
    requires
        1 <= level <= 3,
    ensures
        r == is_heading(line@, level as int),
{
    if line.len() <= level {
        return false;
    }
    let mut i: usize = 0;
    while i < level
        invariant
            i <= level < line.len(),
            forall|j: int| 0 <= j < i ==> line[j] == '#',
        decreases level - i,
    {
        if line[i] != '#' {
            return false;
        }
        i += 1;
    }
    if !space(line[level]) {
        return false;
    }
    let start = skip_spaces(line, level);
    !contains_from(line, start, '\n')
}

/// Decides [`is_list_item`].
pub fn list_item(line: &Vec<char>) -> (r: bool)
    ensures
        r == is_list_item(line@),
{
    if line.len() <= 1 || line[0] != '*' || !space(line[1]) {
        return false;
    }
    let start = skip_spaces(line, 1);
    !contains_from(line, start, '*')
}

/// Decides [`is_link`].
pub fn link(line: &Vec<char>) -> (r: bool)
    ensures
        r == is_link(line@),
{
    if line.len() < 2 || line[0] != '=' || line[1] != '>' {
        return false;
    }
    let target = skip_spaces(line, 2);
    let gap = skip_word(line, target);
    if gap <= target {
        return false;
    }
    let label = skip_spaces(line, gap);
    !contains_from(line, label, '\n')
}

/// The text after the marker of `width` characters and the white space
/// that follows it.
pub fn rest(line: &Vec<char>, width: usize) -> (r: String)
    requires
        width <= line.len(),
    ensures
        r@ == after_marker(line@, width as int),
{
    let start = skip_spaces(line, width);
    string_from(line, start, line.len())
}

impl TextElement {
    /// Reads one line. Every line reads as something: the result is
    /// never an error.
    pub fn from_str(line: &str) -> (r: Result<TextElement, ParseError>)
        ensures
            view_line(r) == Some(spec_classify(line@)),
    {
        let chars = chars_of(line);
        if heading(&chars, 1) {
            Ok(TextElement::H1(rest(&chars, 1)))
        } else if heading(&chars, 2) {
            Ok(TextElement::H2(rest(&chars, 2)))
        } else if heading(&chars, 3) {
            Ok(TextElement::H3(rest(&chars, 3)))
        } else if list_item(&chars) {
            Ok(TextElement::ListItem(rest(&chars, 1)))
        } else if link(&chars) {
            Ok(TextElement::LinkItem(line.to_owned()))
        } else if chars.len() >= 3 && chars[0] == '`' && chars[1] == '`' && chars[2] == '`' {
            Ok(TextElement::MonoText(line.to_owned()))
        } else {
            Ok(TextElement::Text(line.to_owned()))
        }
    }
}

/// Reads a document line by line.
pub fn parse(content: String) -> (r: Vec<Result<TextElement, ParseError>>)
    ensures
        view_lines(r@) == spec_parse(content@),
{
    let all = lines(content.as_str());
    let mut parsed: Vec<Result<TextElement, ParseError>> = Vec::new();
    let mut i: usize = 0;
    while i < all.len()
        invariant
            i <= all.len(),
            parsed.len() == i,
            forall|j: int|
                0 <= j < i ==> view_line(#[trigger] parsed[j]) == Some(spec_classify(all[j]@)),
        decreases all.len() - i,
    {
        let e = TextElement::from_str(all[i].as_str());
        parsed.push(e);
        i += 1;
    }
    assert(view_lines(parsed@) =~= spec_parse(content@)) by {
        assert(crate::text::views(all@) == spec_lines(content@));
        assert forall|j: int| 0 <= j < parsed.len() implies view_lines(parsed@)[j] == spec_parse(
            content@,
        )[j] by {
            assert(crate::text::views(all@)[j] == all[j]@);
        }
    }
    parsed
}

} // verus!
