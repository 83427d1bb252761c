use httpframe::header::{Connection, ConnectionOption, Headers};
use httpframe::policy::should_keep_alive;
use httpframe::version::HttpVersion;

#[test]
fn test_should_keep_alive() {
    let mut headers = Headers::new();

    assert!(!should_keep_alive(HttpVersion::Http10, &headers));
    assert!(should_keep_alive(HttpVersion::Http11, &headers));

    headers.set(Connection::close());
    assert!(!should_keep_alive(HttpVersion::Http10, &headers));
    assert!(!should_keep_alive(HttpVersion::Http11, &headers));

    headers.set(Connection::keep_alive());
    assert!(should_keep_alive(HttpVersion::Http10, &headers));
    assert!(should_keep_alive(HttpVersion::Http11, &headers));
}

#[test]
fn http10_connection_present_lacking_keep_alive_is_dropped() {
    let mut headers = Headers::new();
    headers.set(Connection(vec![ConnectionOption::Token(String::from("upgrade"))]));
    assert!(!should_keep_alive(HttpVersion::Http10, &headers));
}

#[test]
fn http10_connection_with_keep_alive_is_kept() {
    let mut headers = Headers::new();
    headers.set(Connection(vec![
        ConnectionOption::Token(String::from("upgrade")),
        ConnectionOption::KeepAlive,
    ]));
    assert!(should_keep_alive(HttpVersion::Http10, &headers));
}

#[test]
fn http11_connection_present_without_close_is_kept() {
    let mut headers = Headers::new();
    headers.set(Connection(vec![ConnectionOption::Token(String::from("upgrade"))]));
    assert!(should_keep_alive(HttpVersion::Http11, &headers));
}

#[test]
fn http11_connection_with_close_is_dropped() {
    let mut headers = Headers::new();
    headers.set(Connection(vec![
        ConnectionOption::Token(String::from("upgrade")),
        ConnectionOption::Close,
    ]));
    assert!(!should_keep_alive(HttpVersion::Http11, &headers));
}

#[test]
fn connection_contains_compares_token_text() {
    let conn = Connection(vec![
        ConnectionOption::Token(String::from("upgrade")),
        ConnectionOption::Close,
    ]);
    assert!(conn.contains(&ConnectionOption::Close));
    assert!(conn.contains(&ConnectionOption::Token(String::from("upgrade"))));
    assert!(!conn.contains(&ConnectionOption::Token(String::from("downgrade"))));
    assert!(!conn.contains(&ConnectionOption::KeepAlive));
}
