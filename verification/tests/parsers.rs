use castor::gemini::parser as gemini;
use castor::gopher::parser as gopher;
use castor::text::{lines, starts_with};
use regex::Regex;

fn g(line: &str) -> gemini::TextElement {
    gemini::TextElement::from_str(line).unwrap()
}

fn m(line: &str) -> gopher::TextElement {
    gopher::TextElement::from_str(line).unwrap()
}

fn s(text: &str) -> String {
    text.to_string()
}

#[test]
fn gemini_headings() {
    assert_eq!(g("# Title"), gemini::TextElement::H1(s("Title")));
    assert_eq!(g("## Sub"), gemini::TextElement::H2(s("Sub")));
    assert_eq!(g("### Sub sub"), gemini::TextElement::H3(s("Sub sub")));
    assert_eq!(g("#\t  spaced  "), gemini::TextElement::H1(s("spaced  ")));
    assert_eq!(g("# "), gemini::TextElement::H1(s("")));
    assert_eq!(g("#NoSpace"), gemini::TextElement::Text(s("#NoSpace")));
    assert_eq!(g("#### four"), gemini::TextElement::Text(s("#### four")));
    assert_eq!(g("#"), gemini::TextElement::Text(s("#")));
    assert_eq!(g("#\u{a0}wide"), gemini::TextElement::H1(s("wide")));
}

#[test]
fn gemini_list_items() {
    assert_eq!(g("* item"), gemini::TextElement::ListItem(s("item")));
    assert_eq!(g("*   item two "), gemini::TextElement::ListItem(s("item two ")));
    assert_eq!(g("* a * b"), gemini::TextElement::Text(s("* a * b")));
    assert_eq!(g("*item"), gemini::TextElement::Text(s("*item")));
    assert_eq!(g("* "), gemini::TextElement::ListItem(s("")));
}

#[test]
fn gemini_links_toggles_and_text() {
    assert_eq!(g("=> /foo Label"), gemini::TextElement::LinkItem(s("=> /foo Label")));
    assert_eq!(g("=>gemini://h.org"), gemini::TextElement::LinkItem(s("=>gemini://h.org")));
    assert_eq!(g("=>"), gemini::TextElement::Text(s("=>")));
    assert_eq!(g("=>   "), gemini::TextElement::Text(s("=>   ")));
    assert_eq!(g("=> \t\n"), gemini::TextElement::Text(s("=> \t\n")));
    assert_eq!(g("=>x"), gemini::TextElement::LinkItem(s("=>x")));
    assert_eq!(g("=> a b\nc"), gemini::TextElement::Text(s("=> a b\nc")));
    assert_eq!(g("```"), gemini::TextElement::MonoText(s("```")));
    assert_eq!(g("```rust"), gemini::TextElement::MonoText(s("```rust")));
    assert_eq!(g("``"), gemini::TextElement::Text(s("``")));
    assert_eq!(g(""), gemini::TextElement::Text(s("")));
    assert_eq!(g("plain words"), gemini::TextElement::Text(s("plain words")));
    assert_eq!(g(" # indented"), gemini::TextElement::Text(s(" # indented")));
}

#[test]
fn gemini_document() {
    let parsed = gemini::parse(s("# Title\n=> /x Go\n"));
    assert_eq!(
        parsed,
        vec![Ok(gemini::TextElement::H1(s("Title"))), Ok(gemini::TextElement::LinkItem(s("=> /x Go")))]
    );
    let parsed = gemini::parse(s("a\r\n\r\n* b\n```\ncode\n```"));
    assert_eq!(
        parsed,
        vec![
            Ok(gemini::TextElement::Text(s("a"))),
            Ok(gemini::TextElement::Text(s(""))),
            Ok(gemini::TextElement::ListItem(s("b"))),
            Ok(gemini::TextElement::MonoText(s("```"))),
            Ok(gemini::TextElement::Text(s("code"))),
            Ok(gemini::TextElement::MonoText(s("```"))),
        ]
    );
    assert_eq!(gemini::parse(String::new()), vec![]);
}

fn by_pattern(patterns: &[Regex], line: &str) -> gemini::TextElement {
    let first = |r: &Regex| r.captures(line).unwrap().get(1).map_or("", |m| m.as_str()).to_string();
    if patterns[0].is_match(line) {
        gemini::TextElement::H1(first(&patterns[0]))
    } else if patterns[1].is_match(line) {
        gemini::TextElement::H2(first(&patterns[1]))
    } else if patterns[2].is_match(line) {
        gemini::TextElement::H3(first(&patterns[2]))
    } else if patterns[3].is_match(line) {
        gemini::TextElement::ListItem(first(&patterns[3]))
    } else if patterns[4].is_match(line) {
        gemini::TextElement::LinkItem(line.to_string())
    } else if line.starts_with("```") {
        gemini::TextElement::MonoText(line.to_string())
    } else {
        gemini::TextElement::Text(line.to_string())
    }
}

#[test]
fn gemini_lines_read_as_the_patterns_say() {
    let patterns = [
        Regex::new(r"^#\s+(.*)$").unwrap(),
        Regex::new(r"^##\s+(.*)$").unwrap(),
        Regex::new(r"^###\s+(.*)$").unwrap(),
        Regex::new(r"^\*\s+([^*]*)$").unwrap(),
        Regex::new(r"^=>\s*(\S+)\s*(.*)?$").unwrap(),
    ];
    let pieces = ["#", "##", "*", "=>", "`", "```", " ", "\t", "\n", "\u{a0}", "a", "x y"];
    let mut count = 0;
    for a in pieces {
        for b in pieces {
            for c in pieces {
                let line = format!("{}{}{}", a, b, c);
                assert_eq!(g(&line), by_pattern(&patterns, &line), "line {:?}", line);
                let line = format!("{}{}{}{}", a, b, c, a);
                assert_eq!(g(&line), by_pattern(&patterns, &line), "line {:?}", line);
                count += 2;
            }
        }
    }
    assert_eq!(count, 3456);
}

#[test]
fn gemini_link_parts_are_the_captures_of_the_pattern() {
    let pattern = Regex::new(r"^=>\s*(\S+)\s*(.*)?$").unwrap();
    let pieces = ["=>", " ", "\t", "\n", "\u{2003}", "a", "/x", "L b"];
    for a in pieces {
        for b in pieces {
            for c in pieces {
                let line = format!("=>{}{}{}", a, b, c);
                let expected = pattern.captures(&line).map(|caps| {
                    (
                        caps.get(1).map_or("", |m| m.as_str()).to_string(),
                        caps.get(2).map_or("", |m| m.as_str()).to_string(),
                    )
                });
                assert_eq!(castor::gemini::link::parts(&line), expected, "line {:?}", line);
            }
        }
    }
}

#[test]
fn gopher_menu_lines() {
    assert_eq!(m("1Menu\t/path\thost\t70"), gopher::TextElement::LinkItem(s("1Menu\t/path\thost\t70")));
    assert_eq!(m("0File\t/f\thost\t70"), gopher::TextElement::LinkItem(s("0File\t/f\thost\t70")));
    assert_eq!(m("iJust info\tfake\t(NULL)\t0"), gopher::TextElement::Text(s("Just info")));
    assert_eq!(m("i\t\t\t"), gopher::TextElement::Text(s("")));
    assert_eq!(
        m("hWeb\tURL:http://e.com\thost\t70"),
        gopher::TextElement::ExternalLinkItem(s("hWeb\tURL:http://e.com\thost\t70"))
    );
    assert_eq!(m("IPicture\t/p.png\thost\t70"), gopher::TextElement::Image(s("Picture")));
    assert_eq!(m("1No tabs here"), gopher::TextElement::Text(s("1No tabs here")));
    assert_eq!(m(""), gopher::TextElement::Text(s("")));
    assert_eq!(m("7Search\t/s\thost\t70"), gopher::TextElement::Text(s("7Search\t/s\thost\t70")));
    assert_eq!(m("\tx"), gopher::TextElement::Text(s("\tx")));
}

#[test]
fn gopher_lines_of_other_types_are_text() {
    for line in [
        "[1] gopher://h.org/1/x\tmore",
        "[2] https://e.com\tmore",
        "[3] http://e.com\tmore",
        "[4] ftp://e.com\tmore",
        "[5] gopher://h.org",
        "9Binary\t/b\thost\t70",
        "gFile\t/g.gif\thost\t70",
    ] {
        assert_eq!(m(line), gopher::TextElement::Text(s(line)), "line {:?}", line);
    }
}

#[test]
fn gopher_document() {
    let parsed = gopher::parse(s("iWelcome\t\t\t\r\n1Menu\t/path\thost\t70\r\n.\r\n"));
    assert_eq!(
        parsed,
        vec![
            Ok(gopher::TextElement::Text(s("Welcome"))),
            Ok(gopher::TextElement::LinkItem(s("1Menu\t/path\thost\t70"))),
            Ok(gopher::TextElement::Text(s("."))),
        ]
    );
}

#[test]
fn finger_document() {
    let parsed = castor::finger::parser::parse(s("Login: joe\r\nPlan:\nnone"));
    assert_eq!(
        parsed,
        vec![
            Ok(castor::finger::parser::TextElement::Text(s("Login: joe"))),
            Ok(castor::finger::parser::TextElement::Text(s("Plan:"))),
            Ok(castor::finger::parser::TextElement::Text(s("none"))),
        ]
    );
}

#[test]
fn lines_are_split_as_std_splits_them() {
    let pieces = ["", "a", "\n", "\r", "\r\n", "b c", "\u{e9}"];
    for a in pieces {
        for b in pieces {
            for c in pieces {
                for d in pieces {
                    let text = format!("{}{}{}{}", a, b, c, d);
                    let expected: Vec<String> = text.lines().map(|l| l.to_string()).collect();
                    assert_eq!(lines(&text), expected, "text {:?}", text);
                }
            }
        }
    }
    assert_eq!(lines("one\r\ntwo\n\nfour"), vec![s("one"), s("two"), s(""), s("four")]);
}

#[test]
fn text_helpers() {
    assert!(starts_with("gemini://x", "gemini://"));
    assert!(starts_with("abc", ""));
    assert!(!starts_with("ab", "abc"));
    assert!(!starts_with("xbc", "abc"));
    for c in ['\t', '\n', '\u{b}', '\u{c}', '\r', ' ', '\u{85}', '\u{a0}', '\u{1680}', '\u{2000}', '\u{200a}', '\u{2028}', '\u{2029}', '\u{202f}', '\u{205f}', '\u{3000}'] {
        assert!(castor::text::space(c));
    }
    let mut n = 0;
    for code in 0u32..0x11000 {
        if let Some(c) = char::from_u32(code) {
            assert_eq!(castor::text::space(c), c.is_whitespace(), "U+{:X}", code);
            n += 1;
        }
    }
    assert!(n > 60000);
    let chars = castor::text::chars_of("a\u{e9}b");
    assert_eq!(chars, vec!['a', '\u{e9}', 'b']);
    assert_eq!(castor::text::string_from(&chars, 1, 3), "\u{e9}b");
    assert_eq!(castor::text::skip_spaces(&castor::text::chars_of("  x "), 0), 2);
    assert_eq!(castor::text::skip_word(&castor::text::chars_of("ab cd"), 0), 2);
    assert_eq!(castor::text::find_from(&castor::text::chars_of("a\tb\tc"), 2, '\t'), 3);
    assert!(castor::text::contains_from(&castor::text::chars_of("abc"), 1, 'c'));
    assert!(!castor::text::contains_from(&castor::text::chars_of("abc"), 1, 'a'));
}

#[test]
fn bytes_become_text() {
    assert_eq!(castor::text::text(b"plain"), "plain");
    assert_eq!(castor::text::text("caf\u{e9} \u{1f600}".as_bytes()), "caf\u{e9} \u{1f600}");
    assert_eq!(castor::text::text(b"a\xffb"), "a\u{fffd}b");
    assert_eq!(castor::text::text(b""), "");
}
