use castor::absolute::make;
use castor::address::{Address, ParseFailure};
use castor::gemini::link as gemini;
use castor::gopher::link as gopher;
use castor::history::{append, History};

fn page(url: &str) -> Address {
    Address::parse(url).unwrap()
}

fn s(text: &str) -> String {
    text.to_string()
}

#[test]
fn gopher_menu_line_is_a_gopher_link() {
    let link = gopher::Link::from_str("1Menu\t/path\thost\t70\r\n").unwrap();
    match link {
        gopher::Link::Gopher(address, label) => {
            assert_eq!(address.as_str(), "gopher://host:70/path");
            assert_eq!(label, "Menu");
        }
        other => panic!("{:?}", other),
    }
}

#[test]
fn gopher_menu_targets() {
    assert_eq!(
        gopher::menu_target("1Menu\t/path\thost\t70"),
        Some((s("gopher://host:70/path"), s("Menu")))
    );
    assert_eq!(
        gopher::menu_target("0Doc\tdocs/a.txt\th.org\t7070\tplus"),
        Some((s("gopher://h.org:7070/docs/a.txt"), s("Doc")))
    );
    assert_eq!(gopher::menu_target("1\t\th\t70"), Some((s("gopher://h:70/"), s(""))));
    assert_eq!(gopher::menu_target("1Menu\t/path\thost"), None);
    assert_eq!(gopher::menu_target("1Menu\t/path"), None);
    assert_eq!(gopher::menu_target("1Menu"), None);
    assert_eq!(gopher::menu_target(""), None);
    assert_eq!(gopher::menu_target("\ta\tb\tc"), Some((s("gopher://b:c/a"), s(""))));
}

#[test]
fn gopher_links_of_other_kinds() {
    assert_eq!(
        gopher::Link::from_str("hWeb\thttps://e.com/x\thost\t70"),
        Ok(gopher::Link::Http(page("https://e.com/x"), s("Web")))
    );
    assert_eq!(
        gopher::Link::from_str("hGem\tgemini://h.org/\thost\t70"),
        Ok(gopher::Link::Gemini(page("gemini://h.org/"), s("Gem")))
    );
    assert_eq!(
        gopher::Link::from_str("hRel\t/somewhere\thost\t70"),
        Ok(gopher::Link::Relative(s("/somewhere"), s("Rel")))
    );
    assert_eq!(
        gopher::Link::from_str("hOdd\tfinger://h.org/joe"),
        Ok(gopher::Link::Unknown(page("finger://h.org/joe"), s("Odd")))
    );
    assert_eq!(
        gopher::Link::from_str("[1] gopher://h.org/1/x"),
        Ok(gopher::Link::Gopher(page("gopher://h.org/1/x"), s("[1] gopher://h.org/1/x")))
    );
}

#[test]
fn gopher_lines_that_are_no_links() {
    for line in ["", "iInfo\t\t\t", "hNoTarget", "1Menu\t/path\thost", "[1]", "plain", "hBad\thttp://[::1"] {
        assert_eq!(gopher::Link::from_str(line), Err(gopher::ParseError), "line {:?}", line);
    }
    assert_eq!(gopher::Link::from_str("1Menu\t/path\tho st\t70"), Err(gopher::ParseError));
}

#[test]
fn gemini_link_line_round_trip() {
    let link = gemini::Link::from_str("=> /foo Label").unwrap();
    assert_eq!(link, gemini::Link::Relative(s("/foo"), s("Label")));
    let mut history = History::new();
    append(&mut history, page("gemini://h.org"));
    match link {
        gemini::Link::Relative(reference, label) => {
            assert_eq!(make(&reference, &history).unwrap().as_str(), "gemini://h.org/foo");
            assert_eq!(label, "Label");
        }
        other => panic!("{:?}", other),
    }
}

#[test]
fn gemini_link_parts() {
    assert_eq!(gemini::parts("=> /foo Label"), Some((s("/foo"), s("Label"))));
    assert_eq!(gemini::parts("=>/foo"), Some((s("/foo"), s(""))));
    assert_eq!(gemini::parts("=>\t gemini://h.org/  A  long label "), Some((s("gemini://h.org/"), s("A  long label "))));
    assert_eq!(gemini::parts("=>"), None);
    assert_eq!(gemini::parts("=>   "), None);
    assert_eq!(gemini::parts("=>x"), Some((s("x"), s(""))));
    assert_eq!(gemini::parts("= > x"), None);
    assert_eq!(gemini::parts("text"), None);
    assert_eq!(gemini::parts("=> a b\nc"), None);
}

#[test]
fn gemini_links_by_scheme() {
    assert_eq!(
        gemini::Link::from_str("=> gemini://h.org/x Home"),
        Ok(gemini::Link::Gemini(page("gemini://h.org/x"), s("Home")))
    );
    assert_eq!(
        gemini::Link::from_str("=> gopher://h.org/1/x"),
        Ok(gemini::Link::Gopher(page("gopher://h.org/1/x"), s("")))
    );
    assert_eq!(
        gemini::Link::from_str("=> http://e.com Web"),
        Ok(gemini::Link::Http(page("http://e.com"), s("Web")))
    );
    assert_eq!(
        gemini::Link::from_str("=> https://e.com Web"),
        Ok(gemini::Link::Http(page("https://e.com"), s("Web")))
    );
    assert_eq!(
        gemini::Link::from_str("=> finger://h.org/joe Joe"),
        Ok(gemini::Link::Finger(page("finger://h.org/joe"), s("Joe")))
    );
    assert_eq!(
        gemini::Link::from_str("=> mailto:joe@h.org Mail"),
        Ok(gemini::Link::Unknown(page("mailto:joe@h.org"), s("Mail")))
    );
    assert_eq!(gemini::Link::from_str("=> page.gmi"), Ok(gemini::Link::Relative(s("page.gmi"), s(""))));
    assert_eq!(
        gemini::Link::from_str("=> http://[::1 x"),
        Ok(gemini::Link::Relative(s("http://[::1"), s("x")))
    );
    assert_eq!(gemini::Link::from_str("no link"), Err(gemini::ParseError));
    assert_eq!(gemini::Link::from_str("=>"), Err(gemini::ParseError));
    assert_eq!(gemini::Link::from_str("=>  "), Err(gemini::ParseError));
}

#[test]
fn classify_by_outcome() {
    assert_eq!(
        gemini::classify(Err(ParseFailure::RelativeWithoutBase), s("x"), s("l")),
        gemini::Link::Relative(s("x"), s("l"))
    );
    assert_eq!(
        gemini::classify(Err(ParseFailure::Malformed), s("x"), s("l")),
        gemini::Link::Relative(s("x"), s("l"))
    );
    assert_eq!(
        gemini::classify(Ok(page("finger://h.org/joe")), s("x"), s("l")),
        gemini::Link::Finger(page("finger://h.org/joe"), s("l"))
    );
    assert_eq!(
        gopher::classify(Err(ParseFailure::RelativeWithoutBase), s("x"), s("l")),
        Some(gopher::Link::Relative(s("x"), s("l")))
    );
    assert_eq!(gopher::classify(Err(ParseFailure::Malformed), s("x"), s("l")), None);
    assert_eq!(
        gemini::make_link(s("gemini://h.org"), s("l")),
        gemini::Link::Gemini(page("gemini://h.org"), s("l"))
    );
    assert_eq!(
        gopher::make_link(s("gopher://h.org"), s("l")),
        Some(gopher::Link::Gopher(page("gopher://h.org"), s("l")))
    );
}
