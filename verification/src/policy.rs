//! The connection-reuse (keep-alive) policy.

use vstd::prelude::*;

use crate::header::{has_token, ConnectionOption, Headers};
use crate::version::HttpVersion;

verus! {

/// The keep-alive decision table, first match winning:
///
/// | version | `Connection` header                 | result |
/// |---------|-------------------------------------|--------|
/// | 1.0     | absent                              | false  |
/// | 1.0     | present, lacks `keep-alive`         | false  |
/// | 1.0     | present, has `keep-alive`           | true   |
/// | 1.1     | present, has `close`                | false  |
/// | 1.1     | absent, or present without `close`  | true   |
pub open spec fn spec_should_keep_alive(version: HttpVersion, headers: Headers) -> bool {
    match version {
        HttpVersion::Http10 => match headers.connection {
            Some(c) => has_token(c.0@, ConnectionOption::KeepAlive),
            None => false,
        },
        HttpVersion::Http11 => match headers.connection {
            Some(c) => !has_token(c.0@, ConnectionOption::Close),
            None => true,
        },
    }
}

/// Checks if a connection should be kept alive after the message whose head
/// carries `version` and `headers` completes.
///
/// HTTP/1.1 defaults to a persistent connection and HTTP/1.0 to a
/// non-persistent one; the `Connection` header's `keep-alive` and `close`
/// tokens override those defaults.
pub fn should_keep_alive(version: HttpVersion, headers: &Headers) -> (r: bool)
    ensures
        r == spec_should_keep_alive(version, *headers),
{
    match headers.get_connection() {
        None => match version {
            HttpVersion::Http10 => false,
            HttpVersion::Http11 => true,
        },
        Some(conn) => match version {
            HttpVersion::Http10 => conn.contains(&ConnectionOption::KeepAlive),
            HttpVersion::Http11 => !conn.contains(&ConnectionOption::Close),
        },
    }
}

/// The decision table, row by row: every enumerated (version, `Connection`
/// header) combination decides exactly the tabulated boolean.
pub proof fn lemma_keep_alive_table(version: HttpVersion, headers: Headers)
    ensures
        version is Http10 && headers.connection is None
            ==> !spec_should_keep_alive(version, headers),
        version is Http10 && (headers.connection matches Some(c)
            && !has_token(c.0@, ConnectionOption::KeepAlive))
            ==> !spec_should_keep_alive(version, headers),
        version is Http10 && (headers.connection matches Some(c)
            && has_token(c.0@, ConnectionOption::KeepAlive))
            ==> spec_should_keep_alive(version, headers),
        version is Http11 && (headers.connection matches Some(c)
            && has_token(c.0@, ConnectionOption::Close))
            ==> !spec_should_keep_alive(version, headers),
        version is Http11 && (headers.connection is None || (headers.connection
            matches Some(c) && !has_token(c.0@, ConnectionOption::Close)))
            ==> spec_should_keep_alive(version, headers),
{
}

/// Without a `Connection` header the defaults stand, and they differ by
/// version: an HTTP/1.0 connection is dropped, an HTTP/1.1 one is kept.
pub proof fn lemma_default_asymmetry(headers: Headers)
    requires
        headers.connection is None,
    ensures
        !spec_should_keep_alive(HttpVersion::Http10, headers),
        spec_should_keep_alive(HttpVersion::Http11, headers),
{
}

/// A `Connection` header that carries `close` and not `keep-alive` (as the
/// header built by `Connection::close` does) forces the connection to be
/// dropped, whatever the version.
pub proof fn lemma_close_forces_non_persistent(version: HttpVersion, headers: Headers)
    requires
        headers.connection matches Some(c) && has_token(c.0@, ConnectionOption::Close)
            && !has_token(c.0@, ConnectionOption::KeepAlive),
    ensures
        !spec_should_keep_alive(version, headers),
{
}

/// A `Connection` header that carries `keep-alive` and not `close` (as the
/// header built by `Connection::keep_alive` does) forces the connection to
/// be kept, whatever the version.
pub proof fn lemma_keep_alive_forces_persistent(version: HttpVersion, headers: Headers)
    requires
        headers.connection matches Some(c) && has_token(c.0@, ConnectionOption::KeepAlive)
            && !has_token(c.0@, ConnectionOption::Close),
    ensures
        spec_should_keep_alive(version, headers),
{
}

} // verus!
