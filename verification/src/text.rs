//! Character-level helpers shared by the parsers.

use vstd::prelude::*;
use vstd::utf8::{decode_utf8, valid_utf8};

verus! {

/// The text that `String::from_utf8_lossy` makes of `bytes`.
pub uninterp spec fn utf8_lossy(bytes: Seq<u8>) -> Seq<char>;

/// Calls `String::from_utf8_lossy`, which decodes `bytes` as UTF-8 and
/// puts U+FFFD in place of what is not well-formed. Well-formed bytes
/// come back as the text they encode; of other bytes the contract only
/// names the result.
#[verifier::external_body]
fn lossy(bytes: &[u8]) -> (r: String)
    ensures
        r@ == utf8_lossy(bytes@),
        valid_utf8(bytes@) ==> r@ == decode_utf8(bytes@),
{
    String::from_utf8_lossy(bytes).into_owned()
}

/// The text of `bytes`: what they encode where they are well-formed
/// UTF-8, else what the lossy decoding makes of them.
pub open spec fn text_of(bytes: Seq<u8>) -> Seq<char> {
    if valid_utf8(bytes) {
        decode_utf8(bytes)
    } else {
        utf8_lossy(bytes)
    }
}

/// Decodes `bytes` as text, with U+FFFD in place of what is not
/// well-formed.
pub fn text(bytes: &[u8]) -> (r: String)
    ensures
        r@ == text_of(bytes@),
{
    lossy(bytes)
}

/// Text that is encoded and decoded again is the same text.
pub proof fn lemma_text_of_encoded(s: Seq<char>)
    ensures
        text_of(vstd::utf8::encode_utf8(s)) == s,
{
    vstd::utf8::encode_utf8_valid_utf8(s);
    vstd::utf8::encode_utf8_decode_utf8(s);
}

/// Whether `c` is white space: the code points with the Unicode
/// `White_Space` property.
pub open spec fn is_space(c: char) -> bool {
    let n = c as u32;
    (0x09 <= n <= 0x0D) || n == 0x20 || n == 0x85 || n == 0xA0 || n == 0x1680 || (0x2000 <= n
        <= 0x200A) || n == 0x2028 || n == 0x2029 || n == 0x202F || n == 0x205F || n == 0x3000
}

/// Decides [`is_space`].
pub fn space(c: char) -> (r: bool)
    ensures
        r == is_space(c),
{
    let n: u32 = c as u32;
    (0x09 <= n && n <= 0x0D) || n == 0x20 || n == 0x85 || n == 0xA0 || n == 0x1680 || (0x2000 <= n
        && n <= 0x200A) || n == 0x2028 || n == 0x2029 || n == 0x202F || n == 0x205F || n == 0x3000
}

/// The characters of `s`, in order.
pub fn chars_of(s: &str) -> (v: Vec<char>)
    ensures
        v@ == s@,
{
    let mut v: Vec<char> = Vec::new();
    for c in it: s.chars()
        invariant
            v@ == it.seq().take(it.index()),
            it.seq() == s@,
    {
        v.push(c);
    }
    v
}

/// Whether `s` begins with `p`.
pub fn starts_with(s: &str, p: &str) -> (r: bool)
    ensures
        r == p@.is_prefix_of(s@),
{
    let s = chars_of(s);
    let p = chars_of(p);
    begins_with(&s, &p)
}

/// Whether the characters `s` begin with the characters `p`.
pub fn begins_with(s: &Vec<char>, p: &Vec<char>) -> (r: bool)
    ensures
        r == p@.is_prefix_of(s@),
{
    if p.len() > s.len() {
        return false;
    }
    let mut i: usize = 0;
    while i < p.len()
        invariant
            i <= p.len() <= s.len(),
            forall|j: int| 0 <= j < i ==> s[j] == p[j],
        decreases p.len() - i,
    {
        if s[i] != p[i] {
            assert(s@.subrange(0, p@.len() as int)[i as int] == s[i as int]);
            return false;
        }
        i += 1;
    }
    assert(s@.subrange(0, p@.len() as int) =~= p@);
    true
}

/// `String::push` appends one character to the end of the string.
pub assume_specification[ String::push ](s: &mut String, c: char)
    ensures
        final(s)@ == old(s)@.push(c),
;

/// The string of the characters of `chars` from `from` up to `to`.
pub fn string_from(chars: &Vec<char>, from: usize, to: usize) -> (r: String)
    requires
        from <= to <= chars.len(),
    ensures
        r@ == chars@.subrange(from as int, to as int),
{
    let mut r = String::new();
    let mut i: usize = from;
    assert(r@ =~= chars@.subrange(from as int, i as int));
    while i < to
        invariant
            from <= i <= to <= chars.len(),
            r@ == chars@.subrange(from as int, i as int),
        decreases to - i,
    {
        r.push(chars[i]);
        assert(r@ =~= chars@.subrange(from as int, i + 1));
        i += 1;
    }
    r
}

/// The first place at or after `from` where `s` holds a character that is
/// not white space, or the length of `s` if there is none.
pub open spec fn after_spaces(s: Seq<char>, from: int) -> int
    decreases s.len() - from,
{
    if 0 <= from < s.len() && is_space(s[from]) {
        after_spaces(s, from + 1)
    } else {
        from
    }
}

/// The first place at or after `from` where `s` holds white space, or the
/// length of `s` if there is none.
pub open spec fn after_word(s: Seq<char>, from: int) -> int
    decreases s.len() - from,
{
    if 0 <= from < s.len() && !is_space(s[from]) {
        after_word(s, from + 1)
    } else {
        from
    }
}

/// Where white space runs from `from` up to `to` and ends there,
/// [`after_spaces`] from `from` is `to`.
pub proof fn lemma_after_spaces(s: Seq<char>, from: int, to: int)
    requires
        0 <= from <= to <= s.len(),
        forall|i: int| from <= i < to ==> is_space(s[i]),
        to == s.len() || !is_space(s[to]),
    ensures
        after_spaces(s, from) == to,
    decreases to - from,
{
    if from < to {
        lemma_after_spaces(s, from + 1, to);
    }
}

/// Where a word runs from `from` up to `to` and ends there,
/// [`after_word`] from `from` is `to`.
pub proof fn lemma_after_word(s: Seq<char>, from: int, to: int)
    requires
        0 <= from <= to <= s.len(),
        forall|i: int| from <= i < to ==> !is_space(s[i]),
        to == s.len() || is_space(s[to]),
    ensures
        after_word(s, from) == to,
    decreases to - from,
{
    if from < to {
        lemma_after_word(s, from + 1, to);
    }
}

/// Whether `s` holds `c` at or after `from`.
pub open spec fn holds_from(s: Seq<char>, from: int, c: char) -> bool {
    exists|i: int| from <= i < s.len() && s[i] == c
}

/// Computes [`after_spaces`].
pub fn skip_spaces(s: &Vec<char>, from: usize) -> (r: usize)
    requires
        from <= s.len(),
    ensures
        r == after_spaces(s@, from as int),
        from <= r <= s.len(),
{
    let mut i: usize = from;
    while i < s.len() && space(s[i])
        invariant
            from <= i <= s.len(),
            after_spaces(s@, from as int) == after_spaces(s@, i as int),
        decreases s.len() - i,
    {
        i += 1;
    }
    i
}

/// Computes [`after_word`].
pub fn skip_word(s: &Vec<char>, from: usize) -> (r: usize)
    requires
        from <= s.len(),
    ensures
        r == after_word(s@, from as int),
        from <= r <= s.len(),
{
    let mut i: usize = from;
    while i < s.len() && !space(s[i])
        invariant
            from <= i <= s.len(),
            after_word(s@, from as int) == after_word(s@, i as int),
        decreases s.len() - i,
    {
        i += 1;
    }
    i
}

/// Decides [`holds_from`].
pub fn contains_from(s: &Vec<char>, from: usize, c: char) -> (r: bool)
    requires
        from <= s.len(),
    ensures
        r == holds_from(s@, from as int, c),
{
    let mut i: usize = from;
    while i < s.len()
        invariant
            from <= i <= s.len(),
            forall|j: int| from <= j < i ==> s[j] != c,
        decreases s.len() - i,
    {
        if s[i] == c {
            return true;
        }
        i += 1;
    }
    false
}

/// The first place at or after `from` where `s` holds `c`, or the length
/// of `s` if there is none.
pub open spec fn first_at(s: Seq<char>, from: int, c: char) -> int
    decreases s.len() - from,
{
    if 0 <= from < s.len() && s[from] != c {
        first_at(s, from + 1, c)
    } else {
        from
    }
}

/// Where `s` holds no `c` from `from` up to `to`, and holds one at `to`
/// or ends there, [`first_at`] from `from` is `to`.
pub proof fn lemma_first_at(s: Seq<char>, from: int, to: int, c: char)
    requires
        0 <= from <= to <= s.len(),
        forall|i: int| from <= i < to ==> s[i] != c,
        to == s.len() || s[to] == c,
    ensures
        first_at(s, from, c) == to,
    decreases to - from,
{
    if from < to {
        lemma_first_at(s, from + 1, to, c);
    }
}

/// The place of the first line feed at or after `from` in `s`, or the
/// length of `s` if there is none.
pub open spec fn line_end(s: Seq<char>, from: int) -> int {
    first_at(s, from, '\n')
}

/// `line` without the carriage return at its end, if it has one.
pub open spec fn without_cr(line: Seq<char>) -> Seq<char> {
    if line.len() > 0 && line.last() == '\r' {
        line.drop_last()
    } else {
        line
    }
}

/// The lines of `s` from `from` on. A line ends at a line feed, or at a
/// carriage return followed by a line feed; neither belongs to the line.
/// What follows the last line feed is a line too, unless it is empty.
pub open spec fn spec_lines_from(s: Seq<char>, from: int) -> Seq<Seq<char>>
    decreases s.len() - from,
{
    if from < 0 || from >= s.len() {
        Seq::empty()
    } else {
        let e = line_end(s, from);
        if from <= e < s.len() {
            seq![without_cr(s.subrange(from, e))] + spec_lines_from(s, e + 1)
        } else {
            seq![s.subrange(from, s.len() as int)]
        }
    }
}

/// The lines of `s`.
pub open spec fn spec_lines(s: Seq<char>) -> Seq<Seq<char>> {
    spec_lines_from(s, 0)
}

/// The views of the items of `v`, in order.
pub open spec fn views<T: View>(v: Seq<T>) -> Seq<T::V> {
    v.map_values(|x: T| x@)
}

/// Computes [`first_at`].
pub fn find_from(s: &Vec<char>, from: usize, c: char) -> (r: usize)
    requires
        from <= s.len(),
    ensures
        r == first_at(s@, from as int, c),
        from <= r <= s.len(),
        r < s.len() ==> s[r as int] == c,
{
    let mut i: usize = from;
    while i < s.len() && s[i] != c
        invariant
            from <= i <= s.len(),
            first_at(s@, from as int, c) == first_at(s@, i as int, c),
        decreases s.len() - i,
    {
        i += 1;
    }
    i
}

/// Splits `content` into its lines.
pub fn lines(content: &str) -> (r: Vec<String>)
    ensures
        views(r@) == spec_lines(content@),
{
    let s = chars_of(content);
    let n = s.len();
    let mut out: Vec<String> = Vec::new();
    let mut start: usize = 0;
    assert(views(out@) =~= Seq::<Seq<char>>::empty());
    while start < n
        invariant
            start <= n,
            n == s.len(),
            s@ == content@,
            views(out@) + spec_lines_from(s@, start as int) == spec_lines(s@),
        decreases n - start,
    {
        let e = find_from(&s, start, '\n');
        let ghost before = views(out@);
        if e < n {
            let stop = if e > start && s[e - 1] == '\r' {
                e - 1
            } else {
                e
            };
            let line = string_from(&s, start, stop);
            proof {
                let whole = s@.subrange(start as int, e as int);
                if e > start && s[e - 1] == '\r' {
                    assert(whole.last() == s[e - 1]);
                    assert(whole.drop_last() =~= s@.subrange(start as int, stop as int));
                }
                assert(line@ == without_cr(whole));
            }
            out.push(line);
            assert(views(out@) =~= before.push(line@));
            assert(before.push(line@) + spec_lines_from(s@, e + 1) =~= before + (seq![line@]
                + spec_lines_from(s@, e + 1)));
            start = e + 1;
        } else {
            let line = string_from(&s, start, n);
            out.push(line);
            assert(views(out@) =~= before.push(line@));
            assert(before.push(line@) + spec_lines_from(s@, n as int) =~= before + seq![line@]);
            start = n;
        }
    }
    assert(spec_lines_from(s@, start as int) =~= Seq::<Seq<char>>::empty());
    assert(views(out@) + Seq::<Seq<char>>::empty() =~= views(out@));
    out
}

} // verus!
