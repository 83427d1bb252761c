//! Protocol versions of HTTP messages.

use vstd::prelude::*;

verus! {

/// A version of the HTTP protocol, as carried in a message head.
///
/// Only the HTTP/1.x versions are distinguished here: the framing layer's
/// connection-reuse policy depends on whether a message was 1.0 or 1.1.
#[derive(Clone, Copy, Debug, PartialEq, Eq, Hash, Structural)]
pub enum HttpVersion {
    /// `HTTP/1.0`
    Http10,
    /// `HTTP/1.1`
    Http11,
}

} // verus!
