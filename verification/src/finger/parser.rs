//! The lines of a Finger response: all of them plain text.

use crate::text::{lines, spec_lines, views};
use vstd::prelude::*;

verus! {

/// One line of a Finger response.
#[derive(Debug, Clone, PartialEq, Eq)]
pub enum TextElement {
    /// Plain text.
    Text(String),
}

/// The error of reading a line. No line gives it.
#[derive(Debug, Clone, Copy, PartialEq, Eq, Hash)]
pub struct ParseError;

/// The text of a line that was read.
pub open spec fn view_line(r: Result<TextElement, ParseError>) -> Option<Seq<char>> {
    match r {
        Ok(TextElement::Text(t)) => Some(t@),
        Err(_) => None,
    }
}

/// What each outcome in `v` holds.
pub open spec fn view_lines(v: Seq<Result<TextElement, ParseError>>) -> Seq<Option<Seq<char>>> {
    v.map_values(|e: Result<TextElement, ParseError>| view_line(e))
}

/// What reading every line of `content` gives: the line itself.
pub open spec fn spec_parse(content: Seq<char>) -> Seq<Option<Seq<char>>> {
    spec_lines(content).map_values(|l: Seq<char>| Some(l))
}

/// Reads a response line by line.
pub fn parse(content: String) -> (r: Vec<Result<TextElement, ParseError>>)
    ensures
        view_lines(r@) == spec_parse(content@),
{
    let mut all = lines(content.as_str());
    let ghost texts = views(all@);
    let mut parsed: Vec<Result<TextElement, ParseError>> = Vec::new();
    let n = all.len();
    let mut i: usize = 0;
    while i < n
        invariant
            i <= n,
            n == all.len(),
            parsed.len() == i,
            texts == views(all@),
            forall|j: int| 0 <= j < i ==> view_line(#[trigger] parsed[j]) == Some(texts[j]),
        decreases n - i,
    {
        let line = all[i].clone();
        assert(texts[i as int] == all[i as int]@);
        parsed.push(Ok(TextElement::Text(line)));
        i += 1;
    }
    assert(view_lines(parsed@) =~= spec_parse(content@));
    parsed
}

} // verus!
