use castor::absolute::{candidate, make, resolve};
use castor::address::{Address, UrlError};
use castor::history::{append, History};
use castor::protocols::Scheme;

fn visited(url: &str) -> History {
    let mut history = History::new();
    append(&mut history, Address::parse(url).unwrap());
    history
}

#[test]
fn test_make_absolute_full_url() {
    let history = visited("gemini://typed-hole.org");
    let url = "gemini://typed-hole.org/foo";
    let expected_url = Address::parse("gemini://typed-hole.org/foo").unwrap();
    let absolute_url = make(&url, &history).unwrap();
    assert_eq!(expected_url, absolute_url);
}

#[test]
fn test_make_absolute_full_url_no_protocol() {
    let history = visited("gemini://typed-hole.org");
    let url = "//typed-hole.org/foo";
    let expected_url = Address::parse("gemini://typed-hole.org/foo").unwrap();
    let absolute_url = make(&url, &history).unwrap();
    assert_eq!(expected_url, absolute_url);
}

#[test]
fn test_make_absolute_slash_path() {
    let history = visited("gemini://typed-hole.org");
    let url = "/foo";
    let expected_url = Address::parse("gemini://typed-hole.org/foo").unwrap();
    let absolute_url = make(&url, &history).unwrap();
    assert_eq!(expected_url, absolute_url);
}

#[test]
fn test_make_absolute_just_path() {
    let history = visited("gemini://typed-hole.org");
    let url = "foo";
    let expected_url = Address::parse("gemini://typed-hole.org/foo").unwrap();
    let absolute_url = make(&url, &history).unwrap();
    assert_eq!(expected_url, absolute_url);
}

#[test]
fn test_make_absolute_full_url_no_current_host() {
    let history = History::new();
    let url = "gemini://typed-hole.org/foo";
    let expected_url = Address::parse("gemini://typed-hole.org/foo").unwrap();
    let absolute_url = make(&url, &history).unwrap();
    assert_eq!(expected_url, absolute_url);
}

#[test]
fn test_make_absolute_full_url_no_protocol_no_current_host() {
    let history = History::new();
    let url = "//typed-hole.org/foo";
    let expected_url = Address::parse("gemini://typed-hole.org/foo").unwrap();
    let absolute_url = make(&url, &history).unwrap();
    assert_eq!(expected_url, absolute_url);
}

// Without a current host a path stands on no host. It reaches
// typed-hole.org once a page of that host is current.
#[test]
fn test_make_absolute_slash_path_no_current_host() {
    let mut history = History::new();
    let url = "/foo";
    let absolute_url = make(&url, &history).unwrap();
    assert_eq!(Address::parse("gemini:///foo").unwrap(), absolute_url);
    assert_eq!(absolute_url.host_str(), None);
    append(&mut history, Address::parse("gemini://typed-hole.org").unwrap());
    let expected_url = Address::parse("gemini://typed-hole.org/foo").unwrap();
    let absolute_url = make(&url, &history).unwrap();
    assert_eq!(expected_url, absolute_url);
}

// Without a current host a bare word is a host. It is a path on
// typed-hole.org once a page of that host is current.
#[test]
fn test_make_absolute_just_path_no_current_host() {
    let mut history = History::new();
    let url = "foo";
    let absolute_url = make(&url, &history).unwrap();
    assert_eq!(Address::parse("gemini://foo").unwrap(), absolute_url);
    assert_eq!(absolute_url.host_str(), Some("foo"));
    append(&mut history, Address::parse("gemini://typed-hole.org").unwrap());
    let expected_url = Address::parse("gemini://typed-hole.org/foo").unwrap();
    let absolute_url = make(&url, &history).unwrap();
    assert_eq!(expected_url, absolute_url);
}

#[test]
fn bare_word_without_history_is_a_host() {
    let history = History::new();
    let address = make("foo", &history).unwrap();
    assert_eq!(address.as_str(), "gemini://foo");
    assert_eq!(address.host_str(), Some("foo"));
    assert_eq!(address.path(), "");
}

#[test]
fn path_without_history_has_no_host() {
    let history = History::new();
    let address = make("/foo", &history).unwrap();
    assert_eq!(address.as_str(), "gemini:///foo");
    assert_eq!(address.host_str(), None);
    assert_eq!(address.path(), "/foo");
}

#[test]
fn all_four_forms_resolve_to_the_same_address() {
    let history = visited("gemini://h.org");
    for reference in ["gemini://h.org/foo", "//h.org/foo", "/foo", "foo"] {
        assert_eq!(make(reference, &history).unwrap().as_str(), "gemini://h.org/foo");
    }
}

#[test]
fn absolute_reference_ignores_the_history() {
    let reference = "gemini://h.org/a/b?c";
    let alone = make(reference, &History::new()).unwrap();
    let elsewhere = make(reference, &visited("gemini://other.net/x/y")).unwrap();
    assert_eq!(alone, elsewhere);
    assert_eq!(alone.as_str(), reference);
    assert_eq!(Address::parse(reference).unwrap(), alone);
}

#[test]
fn resolving_again_changes_nothing() {
    let history = visited("gemini://other.net/x/y");
    for reference in ["gemini://h.org/a/b?c", "gemini://H.org", "gemini://h.org/a b", "gemini://h.org:1965/"] {
        let once = make(reference, &history).unwrap();
        let twice = make(once.as_str(), &History::new()).unwrap();
        assert_eq!(once, twice);
        assert_eq!(Address::parse(reference).unwrap(), once);
    }
}

#[test]
fn relative_reference_joins_the_directory_of_the_current_page() {
    let history = visited("gemini://h.org/docs/index.gmi");
    assert_eq!(make("page.gmi", &history).unwrap().as_str(), "gemini://h.org/docs/page.gmi");
    assert_eq!(make("/top", &history).unwrap().as_str(), "gemini://h.org/top");
}

#[test]
fn unparseable_reference_is_invalid() {
    let history = History::new();
    assert_eq!(make("gemini://h.org:notaport/", &history), Err(UrlError::Invalid));
    assert_eq!(Address::parse("foo"), Err(UrlError::Invalid));
    assert_eq!(resolve(Scheme::Finger, "//[::1", &history), Err(UrlError::Invalid));
}

#[test]
fn candidate_text_by_rule() {
    let g = Scheme::Gemini;
    assert_eq!(candidate(g, "gemini://a/b", Some("h"), Some("gemini://h/d/")), Some("gemini://a/b".to_string()));
    assert_eq!(candidate(g, "//a/b", Some("h"), Some("gemini://h/d/")), Some("gemini://a/b".to_string()));
    assert_eq!(candidate(g, "/b", Some("h"), Some("gemini://h/d/")), Some("gemini://h/b".to_string()));
    assert_eq!(candidate(g, "b", Some("h"), Some("gemini://h/d/")), Some("gemini://h/d/b".to_string()));
    assert_eq!(candidate(g, "b", Some("h"), None), None);
    assert_eq!(candidate(g, "b", None, None), Some("gemini://b".to_string()));
    assert_eq!(candidate(g, "/b", None, None), Some("gemini:///b".to_string()));
    assert_eq!(candidate(Scheme::Gopher, "gemini://a", None, None), Some("gopher://gemini://a".to_string()));
    assert_eq!(candidate(Scheme::Finger, "//a", None, None), Some("finger://a".to_string()));
}
