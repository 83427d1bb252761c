//! The header-set model consumed by the framing layer.
//!
//! Only what the framing layer reads is modeled: whether a `Connection`
//! header is present, and which of its tokens it carries.

use vstd::prelude::*;

verus! {

/// One token of a `Connection` header's comma-separated token list.
#[derive(Clone, Debug)]
pub enum ConnectionOption {
    /// The `keep-alive` token.
    KeepAlive,
    /// The `close` token.
    Close,
    /// Any other token, kept verbatim.
    Token(String),
}

impl ConnectionOption {
    /// Whether two tokens are the same, token text included.
    pub open spec fn spec_same(self, other: ConnectionOption) -> bool {
        match (self, other) {
            (ConnectionOption::KeepAlive, ConnectionOption::KeepAlive) => true,
            (ConnectionOption::Close, ConnectionOption::Close) => true,
            (ConnectionOption::Token(a), ConnectionOption::Token(b)) => a@ == b@,
            _ => false,
        }
    }

    /// Decides `spec_same` on two tokens.
    pub fn same(&self, other: &ConnectionOption) -> (r: bool)
        ensures
            r == self.spec_same(*other),
    {
        match (self, other) {
            (ConnectionOption::KeepAlive, ConnectionOption::KeepAlive) => true,
            (ConnectionOption::Close, ConnectionOption::Close) => true,
            (ConnectionOption::Token(a), ConnectionOption::Token(b)) => a.eq(b),
            _ => false,
        }
    }
}

/// Whether some position of `s` holds a token the same as `t`.
pub open spec fn has_token(s: Seq<ConnectionOption>, t: ConnectionOption) -> bool {
    exists|i: int| 0 <= i < s.len() && s[i].spec_same(t)
}

/// The token set of a `Connection` header.
#[derive(Clone, Debug)]
pub struct Connection(pub Vec<ConnectionOption>);

impl Connection {
    /// A `Connection: close` header.
    pub fn close() -> (c: Connection)
        ensures
            c.0@ =~= seq![ConnectionOption::Close],
    {
        Connection(vec![ConnectionOption::Close])
    }

    /// A `Connection: keep-alive` header.
    pub fn keep_alive() -> (c: Connection)
        ensures
            c.0@ =~= seq![ConnectionOption::KeepAlive],
    {
        Connection(vec![ConnectionOption::KeepAlive])
    }

    /// Whether the token list carries a token the same as `t`.
    pub fn contains(&self, t: &ConnectionOption) -> (r: bool)
        ensures
            r == has_token(self.0@, *t),
    {
        let mut i: usize = 0;
        while i < self.0.len()
            invariant
                i <= self.0.len(),
                forall|j: int| 0 <= j < i ==> !self.0@[j].spec_same(*t),
            decreases self.0.len() - i,
        {
            if self.0[i].same(t) {
                return true;
            }
            i += 1;
        }
        false
    }
}

/// The headers of a message, as seen by the framing layer: the `Connection`
/// header's token set, or its absence. All other headers pass through this
/// layer unread.
#[derive(Clone, Debug)]
pub struct Headers {
    /// The `Connection` header, if the message carries one.
    pub connection: Option<Connection>,
}

impl Headers {
    /// An empty header set: no `Connection` header.
    pub fn new() -> (h: Headers)
        ensures
            h.connection is None,
    {
        Headers { connection: None }
    }

    /// Sets the `Connection` header, replacing any prior one.
    pub fn set(&mut self, c: Connection)
        ensures
            final(self).connection == Some(c),
    {
        self.connection = Some(c);
    }

    /// The `Connection` header's token list, if present.
    pub fn get_connection(&self) -> (r: Option<&Connection>)
        ensures
            match r {
                Some(c) => self.connection == Some(*c),
                None => self.connection is None,
            },
    {
        match &self.connection {
            Some(c) => Some(c),
            None => None,
        }
    }
}

} // verus!
