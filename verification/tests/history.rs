use castor::address::Address;
use castor::history::{
    append, clear, forget_current, get_current_host, get_current_url, get_previous_url, History,
};

fn page(url: &str) -> Address {
    Address::parse(url).unwrap()
}

#[test]
fn back_returns_b_then_a_then_none() {
    let mut history = History::new();
    append(&mut history, page("gemini://h.org/a"));
    append(&mut history, page("gemini://h.org/b"));
    append(&mut history, page("gemini://h.org/c"));
    assert_eq!(get_previous_url(&mut history), Some(page("gemini://h.org/b")));
    assert_eq!(get_previous_url(&mut history), Some(page("gemini://h.org/a")));
    assert_eq!(get_previous_url(&mut history), None);
    assert_eq!(history.len(), 1);
    assert_eq!(history.current(), Some(&page("gemini://h.org/a")));
}

#[test]
fn back_on_empty_history_is_none() {
    let mut history = History::new();
    assert_eq!(get_previous_url(&mut history), None);
    assert_eq!(history.len(), 0);
}

#[test]
fn back_after_append_restores_the_history() {
    let mut history = History::new();
    append(&mut history, page("gopher://a.net/1/x"));
    append(&mut history, page("finger://b.net/joe"));
    assert_eq!(history.len(), 2);
    assert_eq!(get_previous_url(&mut history), Some(page("gopher://a.net/1/x")));
    assert_eq!(history.len(), 1);
}

#[test]
fn current_host_is_that_of_the_last_page() {
    let mut history = History::new();
    assert_eq!(get_current_host(&history), None);
    append(&mut history, page("gemini://first.org/x"));
    append(&mut history, page("gemini://second.org/y"));
    assert_eq!(get_current_host(&history), Some("second.org".to_string()));
    append(&mut history, page("mailto:someone"));
    assert_eq!(get_current_host(&history), None);
}

#[test]
fn current_url_is_the_directory_of_the_last_page() {
    let mut history = History::new();
    assert_eq!(get_current_url(&history), None);
    append(&mut history, page("gemini://h.org/docs/index.gmi?q"));
    assert_eq!(get_current_url(&history), Some("gemini://h.org/docs/".to_string()));
    append(&mut history, page("gemini://typed-hole.org"));
    assert_eq!(get_current_url(&history), Some("gemini://typed-hole.org/".to_string()));
    append(&mut history, page("mailto:someone"));
    assert_eq!(get_current_url(&history), None);
}

#[test]
fn clear_and_forget() {
    let mut history = History::new();
    forget_current(&mut history);
    assert_eq!(history.len(), 0);
    append(&mut history, page("gemini://h.org/a"));
    append(&mut history, page("gemini://h.org/b"));
    forget_current(&mut history);
    assert_eq!(history.current(), Some(&page("gemini://h.org/a")));
    clear(&mut history);
    assert_eq!(history.len(), 0);
    assert_eq!(history.current(), None);
}

#[test]
fn address_parts() {
    let a = page("finger://joe@h.org:7979/plan?x=1#frag");
    assert_eq!(a.as_str(), "finger://joe@h.org:7979/plan?x=1#frag");
    assert_eq!(a.scheme(), "finger");
    assert_eq!(a.username(), "joe");
    assert_eq!(a.host_str(), Some("h.org"));
    assert_eq!(a.port(), Some(7979));
    assert_eq!(a.path(), "/plan");
    assert_eq!(a.query(), Some("x=1"));
    assert_eq!(a.through_path(), "finger://joe@h.org:7979/plan");
    let b = a.clone();
    assert_eq!(a, b);
    let c = page("gemini://h.org");
    assert_eq!(c.port(), None);
    assert_eq!(c.query(), None);
    assert_eq!(c.username(), "");
    assert_eq!(c.path(), "");
}
