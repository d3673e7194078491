use castor::address::Address;
use castor::draw::{
    finger_content, gemini_button, gemini_content, gemini_link, gemini_text_content, gopher_button,
    gopher_content, gopher_link, insert_button, insert_external_button, is_gemini_document, Block,
    Button, MenuBlock,
};
use castor::history::{append, History};

fn page(url: &str) -> Address {
    Address::parse(url).unwrap()
}

fn s(text: &str) -> String {
    text.to_string()
}

fn at(url: &str) -> History {
    let mut history = History::new();
    append(&mut history, page(url));
    history
}

#[test]
fn buttons_say_their_label_or_their_address() {
    assert_eq!(
        insert_button(page("gemini://h.org/x"), s("Home"), ""),
        Button { address: page("gemini://h.org/x"), label: s("Home"), external: false }
    );
    assert_eq!(insert_button(page("gemini://h.org/x"), s(""), "").label, "gemini://h.org/x");
    assert_eq!(insert_button(page("gopher://h.org/1"), s(""), " [Gopher]").label, "gopher://h.org/1 [Gopher]");
    assert_eq!(
        insert_external_button(page("https://e.com/"), s("Web")),
        Button { address: page("https://e.com/"), label: s("Web [WWW]"), external: true }
    );
    assert_eq!(insert_external_button(page("https://e.com/"), s("")).label, "https://e.com/ [WWW]");
}

#[test]
fn gemini_links_become_buttons() {
    let history = at("gemini://h.org/dir/page");
    let label = |line: &str| gemini_link(line, &history).map(|b| (b.address.as_str().to_string(), b.label, b.external));
    assert_eq!(label("=> gemini://o.org/ Other"), Some((s("gemini://o.org/"), s("Other"), false)));
    assert_eq!(label("=> gopher://o.org/1 Hole"), Some((s("gopher://o.org/1"), s("Hole [Gopher]"), false)));
    assert_eq!(label("=> finger://o.org/joe"), Some((s("finger://o.org/joe"), s("finger://o.org/joe [Finger]"), false)));
    assert_eq!(label("=> https://e.com Web"), Some((s("https://e.com/"), s("Web [WWW]"), true)));
    assert_eq!(label("=> next Next"), Some((s("gemini://h.org/dir/next"), s("Next"), false)));
    assert_eq!(label("=> /top"), Some((s("gemini://h.org/top"), s("gemini://h.org/top"), false)));
    assert_eq!(label("=> mailto:x@y Mail"), None);
    assert_eq!(label("not a link"), None);
    assert_eq!(
        gemini_button(castor::gemini::link::Link::Relative(s("//o.org:x"), s("l")), &history),
        None
    );
}

#[test]
fn gopher_links_become_buttons() {
    let history = at("gopher://h.org/1/dir");
    let label = |line: &str| gopher_link(line, &history).map(|b| (b.address.as_str().to_string(), b.label, b.external));
    assert_eq!(label("1Menu\t/path\thost\t70"), Some((s("gopher://host:70/path"), s("Menu [Gopher]"), false)));
    assert_eq!(label("hWeb\thttp://e.com/\thost\t70"), Some((s("http://e.com/"), s("Web [WWW]"), true)));
    assert_eq!(label("hGem\tgemini://o.org/\thost\t70"), Some((s("gemini://o.org/"), s("Gem"), false)));
    assert_eq!(label("hRel\t/x\thost\t70"), Some((s("gopher://h.org/x"), s("Rel"), false)));
    assert_eq!(label("hOdd\tmailto:x@y"), None);
    assert_eq!(label("iInfo\t\t\t"), None);
    assert_eq!(
        gopher_button(castor::gopher::link::Link::Unknown(page("mailto:x@y"), s("l")), &history),
        None
    );
}

#[test]
fn toggle_lines_switch_preformatted_text() {
    let parsed = castor::gemini::parser::parse(s("# T\nbefore\n```\ncode\n* not a list here\n```\nafter\n```\nopen"));
    let blocks = gemini_content(parsed);
    assert_eq!(
        blocks,
        vec![
            Block::H1(s("T")),
            Block::Text { text: s("before"), preformatted: false },
            Block::Text { text: s("code"), preformatted: true },
            Block::ListItem(s("not a list here")),
            Block::Text { text: s("after"), preformatted: false },
            Block::Text { text: s("open"), preformatted: true },
        ]
    );
    let parsed = vec![
        Err(castor::gemini::parser::ParseError),
        Ok(castor::gemini::parser::TextElement::H2(s("two"))),
        Ok(castor::gemini::parser::TextElement::H3(s("three"))),
        Ok(castor::gemini::parser::TextElement::LinkItem(s("=> x"))),
    ];
    assert_eq!(gemini_content(parsed), vec![Block::H2(s("two")), Block::H3(s("three")), Block::Link(s("=> x"))]);
    assert_eq!(gemini_content(vec![]), vec![]);
}

#[test]
fn text_files_show_only_text_lines() {
    let parsed = castor::gemini::parser::parse(s("one\n# two\nthree\n=> four\n"));
    assert_eq!(gemini_text_content(parsed), vec![s("one"), s("three")]);
}

#[test]
fn menus_and_finger_pages() {
    let parsed = castor::gopher::parser::parse(s("iHello\t\t\t\n1Menu\t/p\th\t70\nhWeb\tu\th\t70\nIPic\t/i\th\t70\nbare"));
    assert_eq!(
        gopher_content(parsed),
        vec![
            MenuBlock::Text(s("Hello")),
            MenuBlock::Link(s("1Menu\t/p\th\t70")),
            MenuBlock::Link(s("hWeb\tu\th\t70")),
            MenuBlock::Link(s("Pic")),
            MenuBlock::Text(s("bare")),
        ]
    );
    assert_eq!(gopher_content(vec![Err(castor::gopher::parser::ParseError)]), vec![]);
    let parsed = castor::finger::parser::parse(s("a\nb"));
    assert_eq!(finger_content(parsed), vec![s("a"), s("b")]);
    assert_eq!(finger_content(vec![Err(castor::finger::parser::ParseError)]), Vec::<String>::new());
}

#[test]
fn gemini_documents_by_media_type() {
    assert!(is_gemini_document(&Some(s("text/gemini"))));
    assert!(!is_gemini_document(&Some(s("text/plain"))));
    assert!(!is_gemini_document(&Some(s("text/gemini; charset=utf-8"))));
    assert!(!is_gemini_document(&Some(s(""))));
    assert!(!is_gemini_document(&None));
}

#[test]
fn link_lines_without_a_target_have_no_button() {
    let history = at("gemini://h.org/dir/page");
    assert_eq!(gemini_link("=>", &history), None);
    assert_eq!(gemini_link("=>   ", &history), None);
    let parsed = castor::gemini::parser::parse(s("=>\n=> \n=> x"));
    assert_eq!(
        gemini_content(parsed),
        vec![
            Block::Text { text: s("=>"), preformatted: false },
            Block::Text { text: s("=> "), preformatted: false },
            Block::Link(s("=> x")),
        ]
    );
}
