//! Drives the parser-dispatch seam with a small HTTP/1.x head parser
//! standing in for the wire-grammar collaborator.

use httpframe::header::{Connection, ConnectionOption, Headers};
use httpframe::message::Incoming;
use httpframe::parse::{parse, Parse, ParseError, ParseResult};
use httpframe::policy::should_keep_alive;
use httpframe::version::HttpVersion;

/// A minimal request-head parser: method and target as the subject.
struct TinyRequestParser;

fn parse_connection_value(value: &str) -> Connection {
    let mut tokens = Vec::new();
    for raw in value.split(',') {
        let token = raw.trim();
        if token.eq_ignore_ascii_case("keep-alive") {
            tokens.push(ConnectionOption::KeepAlive);
        } else if token.eq_ignore_ascii_case("close") {
            tokens.push(ConnectionOption::Close);
        } else {
            tokens.push(ConnectionOption::Token(token.to_string()));
        }
    }
    Connection(tokens)
}

impl Parse for TinyRequestParser {
    type Subject = (String, String);

    // The ghost members of `Parse` (the spec-level parse function and its
    // obligations) are compiled away; these stubs only satisfy the trait at
    // link time and are never called.
    fn spec_parse(_: vstd::seq::Seq<u8>) -> ParseResult<(String, String)> {
        Ok(None)
    }

    fn lemma_consumed_bounded(_: vstd::seq::Seq<u8>) {}

    fn lemma_prefix_incomplete(_: vstd::seq::Seq<u8>, _: vstd::prelude::int) {}

    fn lemma_complete_stable(_: vstd::seq::Seq<u8>, _: vstd::seq::Seq<u8>) {}

    fn parse(bytes: &[u8]) -> ParseResult<(String, String)> {
        let end = match bytes.windows(4).position(|w| w == b"\r\n\r\n") {
            Some(i) => i,
            None => return Ok(None),
        };
        let used = end + 4;
        let head = match std::str::from_utf8(&bytes[..end]) {
            Ok(s) => s,
            Err(_) => return Err(ParseError::Header),
        };
        let mut lines = head.split("\r\n");
        let request_line = lines.next().unwrap_or("");
        let mut parts = request_line.split(' ');
        let method = parts.next().unwrap_or("").to_string();
        let target = parts.next().unwrap_or("").to_string();
        let version = match parts.next() {
            Some("HTTP/1.0") => HttpVersion::Http10,
            Some("HTTP/1.1") => HttpVersion::Http11,
            _ => return Err(ParseError::Version),
        };
        let mut headers = Headers::new();
        for line in lines {
            let (name, value) = match line.split_once(':') {
                Some(pair) => pair,
                None => return Err(ParseError::Header),
            };
            if name.trim().eq_ignore_ascii_case("connection") {
                headers.set(parse_connection_value(value));
            }
        }
        Ok(Some((Incoming { version, subject: (method, target), headers }, used)))
    }
}

const FULL_HEAD: &[u8] = b"GET /index.html HTTP/1.1\r\nHost: example.com\r\n\r\n";

#[test]
fn strict_prefix_is_incomplete_not_an_error() {
    for cut in 0..FULL_HEAD.len() {
        let outcome = parse::<TinyRequestParser, _>(&FULL_HEAD[..cut]);
        assert!(matches!(outcome, Ok(None)), "prefix of {} bytes", cut);
    }
}

#[test]
fn full_head_with_trailing_bytes_consumes_only_the_head() {
    let mut input = FULL_HEAD.to_vec();
    input.extend_from_slice(b"body bytes that are not part of the head");
    let outcome = parse::<TinyRequestParser, _>(&input);
    let (head, used) = outcome.expect("valid head").expect("complete head");
    assert_eq!(used, FULL_HEAD.len());
    assert_eq!(head.version, HttpVersion::Http11);
    assert_eq!(head.subject.0, "GET");
    assert_eq!(head.subject.1, "/index.html");
}

#[test]
fn unknown_version_is_a_version_error() {
    let input = b"GET / HTTP/9.9\r\n\r\n";
    assert_eq!(
        parse::<TinyRequestParser, _>(input).err(),
        Some(ParseError::Version),
    );
}

#[test]
fn malformed_header_line_is_a_header_error() {
    let input = b"GET / HTTP/1.1\r\nno colon here\r\n\r\n";
    assert_eq!(
        parse::<TinyRequestParser, _>(input).err(),
        Some(ParseError::Header),
    );
}

#[test]
fn parsed_close_request_is_not_kept_alive() {
    let input = b"GET / HTTP/1.1\r\nConnection: close\r\n\r\n";
    let outcome = parse::<TinyRequestParser, _>(input);
    let (head, used) = outcome.expect("valid head").expect("complete head");
    assert_eq!(used, input.len());
    assert_eq!(head.version, HttpVersion::Http11);
    assert!(!should_keep_alive(head.version, &head.headers));
}
