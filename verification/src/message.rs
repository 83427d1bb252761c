//! The incoming message head model.

use vstd::prelude::*;

use crate::header::Headers;
use crate::version::HttpVersion;

verus! {

/// Marker used with a transfer to give it request-writing semantics.
#[derive(Clone, Copy, Debug, PartialEq, Eq, Structural)]
pub struct Request;

/// Marker used with a transfer to give it response-writing semantics.
#[derive(Clone, Copy, Debug, PartialEq, Eq, Structural)]
pub struct Response;

/// An incoming message head: request/status line, and headers.
///
/// `S` is the subject — what differs between requests and responses: a
/// method and target for a request, a [`RawStatus`] for a response. A head
/// is built exactly once, by a successful parse; the framing layer never
/// re-parses or rewrites one.
#[derive(Debug)]
pub struct Incoming<S> {
    /// HTTP version of the message.
    pub version: HttpVersion,
    /// Subject (request line or status line) of the incoming message.
    pub subject: S,
    /// Headers of the incoming message.
    pub headers: Headers,
}

/// An incoming response message head. (The request counterpart's subject —
/// a method and request target — belongs to value types outside this layer,
/// so no alias is fixed for it here.)
pub type IncomingResponse = Incoming<RawStatus>;

/// The raw status code and reason-phrase of a response, uninterpreted: no
/// normalization of the reason phrase is performed at this layer. Equality
/// is structural, code and reason both compared.
#[derive(Clone, PartialEq, Debug)]
pub struct RawStatus(pub u16, pub String);

impl RawStatus {
    /// The interchange representation of the status: its code and reason as
    /// a plain pair, for diagnostics or caching.
    pub fn to_pair(&self) -> (p: (u16, String))
        ensures
            p.0 == self.0,
            p.1@ == self.1@,
    {
        (self.0, self.1.clone())
    }

    /// The status a pair of the interchange representation stands for.
    /// Rebuilding from [`RawStatus::to_pair`]'s result yields the original
    /// code and reason.
    pub fn from_pair(code: u16, reason: String) -> (s: RawStatus)
        ensures
            s.0 == code,
            s.1@ == reason@,
    {
        RawStatus(code, reason)
    }
}

} // verus!
