use castor::address::Address;
use castor::gopher::absolute::make;
use castor::history::{append, History};

fn visited(url: &str) -> History {
    let mut history = History::new();
    append(&mut history, Address::parse(url).unwrap());
    history
}

#[test]
fn absolute_test_make_absolute_full_url() {
    let history = visited("gopher://typed-hole.org");
    let url = "gopher://typed-hole.org/foo";
    let expected_url = Address::parse("gopher://typed-hole.org/foo").unwrap();
    let absolute_url = make(&url, &history).unwrap();
    assert_eq!(expected_url, absolute_url);
}

#[test]
fn absolute_test_make_absolute_full_url_no_protocol() {
    let history = visited("gopher://typed-hole.org");
    let url = "//typed-hole.org/foo";
    let expected_url = Address::parse("gopher://typed-hole.org/foo").unwrap();
    let absolute_url = make(&url, &history).unwrap();
    assert_eq!(expected_url, absolute_url);
}

#[test]
fn absolute_test_make_absolute_slash_path() {
    let history = visited("gopher://typed-hole.org");
    let url = "/foo";
    let expected_url = Address::parse("gopher://typed-hole.org/foo").unwrap();
    let absolute_url = make(&url, &history).unwrap();
    assert_eq!(expected_url, absolute_url);
}

#[test]
fn absolute_test_make_absolute_just_path() {
    let history = visited("gopher://typed-hole.org");
    let url = "foo";
    let expected_url = Address::parse("gopher://typed-hole.org/foo").unwrap();
    let absolute_url = make(&url, &history).unwrap();
    assert_eq!(expected_url, absolute_url);
}

#[test]
fn absolute_test_make_absolute_full_url_no_current_host() {
    let history = History::new();
    let url = "gopher://typed-hole.org/foo";
    let expected_url = Address::parse("gopher://typed-hole.org/foo").unwrap();
    let absolute_url = make(&url, &history).unwrap();
    assert_eq!(expected_url, absolute_url);
}

#[test]
fn absolute_test_make_absolute_full_url_no_protocol_no_current_host() {
    let history = History::new();
    let url = "//typed-hole.org/foo";
    let expected_url = Address::parse("gopher://typed-hole.org/foo").unwrap();
    let absolute_url = make(&url, &history).unwrap();
    assert_eq!(expected_url, absolute_url);
}

// Without a current host a path stands on no host. It reaches
// typed-hole.org once a page of that host is current.
#[test]
fn absolute_test_make_absolute_slash_path_no_current_host() {
    let mut history = History::new();
    let url = "/foo";
    let absolute_url = make(&url, &history).unwrap();
    assert_eq!(Address::parse("gopher:///foo").unwrap(), absolute_url);
    assert_eq!(absolute_url.host_str(), None);
    append(&mut history, Address::parse("gopher://typed-hole.org").unwrap());
    let expected_url = Address::parse("gopher://typed-hole.org/foo").unwrap();
    let absolute_url = make(&url, &history).unwrap();
    assert_eq!(expected_url, absolute_url);
}

// Without a current host a bare word is a host. It is a path on
// typed-hole.org once a page of that host is current.
#[test]
fn absolute_test_make_absolute_just_path_no_current_host() {
    let mut history = History::new();
    let url = "foo";
    let absolute_url = make(&url, &history).unwrap();
    assert_eq!(Address::parse("gopher://foo").unwrap(), absolute_url);
    assert_eq!(absolute_url.host_str(), Some("foo"));
    append(&mut history, Address::parse("gopher://typed-hole.org").unwrap());
    let expected_url = Address::parse("gopher://typed-hole.org/foo").unwrap();
    let absolute_url = make(&url, &history).unwrap();
    assert_eq!(expected_url, absolute_url);
}

#[test]
fn gopher_bare_word_without_history_is_a_host() {
    assert_eq!(make("foo", &History::new()).unwrap().as_str(), "gopher://foo");
}
