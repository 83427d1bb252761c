//! Parser dispatch: the seam between raw bytes and a message head.

use vstd::prelude::*;

use crate::message::Incoming;

verus! {

/// Why a byte sequence is not a valid message head. An error is fatal for
/// the message: the same bytes will never parse, so the connection must be
/// torn down or the message rejected — unlike an incomplete input, which is
/// retried once more bytes arrive.
#[derive(Clone, Copy, Debug, PartialEq, Eq, Structural)]
pub enum ParseError {
    /// The head's first line does not name a known HTTP version.
    Version,
    /// A header line is malformed.
    Header,
}

/// The outcome of offering `bytes` to a head parser.
///
/// `Ok(None)` means not enough bytes yet: retry once more input arrives.
/// `Ok(Some((head, used)))` means a complete head was recognized and the
/// first `used` bytes of the input may be discarded. `Err` means the input
/// is not a valid head for the protocol version parsed.
pub type ParseResult<T> = Result<Option<(Incoming<T>, usize)>, ParseError>;

/// A protocol-version-specific head parser producing subjects of type
/// `Subject`.
///
/// An implementation decides a fixed function of the input bytes,
/// `spec_parse`, and its three proof obligations pin down how that function
/// treats partial and over-long input: incomplete input is reported as
/// `Ok(None)` and never conflated with an error.
pub trait Parse: Sized {
    /// What a parsed head's subject is: a method and target for requests, a
    /// raw status for responses.
    type Subject;

    /// The outcome this parser gives to `bytes`.
    spec fn spec_parse(bytes: Seq<u8>) -> ParseResult<Self::Subject>;

    /// A parser never claims to have consumed more bytes than it was given.
    proof fn lemma_consumed_bounded(bytes: Seq<u8>)
        ensures
            Self::spec_parse(bytes) matches Ok(Some(hu)) ==> hu.1 <= bytes.len(),
    ;

    /// A strict prefix of a complete head is incomplete — never an error.
    proof fn lemma_prefix_incomplete(bytes: Seq<u8>, n: int)
        requires
            Self::spec_parse(bytes) matches Ok(Some(hu)) && 0 <= n < hu.1,
        ensures
            Self::spec_parse(bytes.take(n)) is Ok,
            Self::spec_parse(bytes.take(n))->Ok_0 is None,
    ;

    /// Once a head is complete, trailing bytes change nothing: any
    /// extension of the input parses to the same head and the same
    /// consumed count.
    proof fn lemma_complete_stable(bytes: Seq<u8>, ext: Seq<u8>)
        requires
            Self::spec_parse(bytes) matches Ok(Some(hu)),
        ensures
            Self::spec_parse(bytes + ext) == Self::spec_parse(bytes),
    ;

    /// Parses the head at the start of `bytes`.
    fn parse(bytes: &[u8]) -> (r: ParseResult<Self::Subject>)
        ensures
            r == Self::spec_parse(bytes@),
    ;
}

/// Dispatches `rdr` to the parser for the connection's protocol version and
/// hands its outcome through unchanged.
///
/// Today every connection speaks HTTP/1.x, so the dispatch forwards to the
/// one parser `T` unconditionally; a negotiated version would let it pick
/// another parser without changing any call site, since callers depend only
/// on [`ParseResult`].
pub fn parse<T: Parse<Subject = I>, I>(rdr: &[u8]) -> (r: ParseResult<I>)
    ensures
        r == T::spec_parse(rdr@),
{
    T::parse(rdr)
}

/// A byte sequence that is a strict prefix of a complete head is dispatched
/// as incomplete — retriable, never an error.
pub proof fn lemma_dispatch_prefix_incomplete<T: Parse<Subject = I>, I>(bytes: Seq<u8>, n: int)
    requires
        T::spec_parse(bytes) matches Ok(Some(hu)) && 0 <= n < hu.1,
    ensures
        T::spec_parse(bytes.take(n)) is Ok,
        T::spec_parse(bytes.take(n))->Ok_0 is None,
{
    T::lemma_prefix_incomplete(bytes, n);
}

/// A complete head followed by trailing bytes is dispatched to the same
/// head and the same consumed count: the trailing bytes are not consumed.
pub proof fn lemma_dispatch_trailing_ignored<T: Parse<Subject = I>, I>(bytes: Seq<u8>, ext: Seq<u8>)
    requires
        T::spec_parse(bytes) matches Ok(Some(hu)),
    ensures
        T::spec_parse(bytes + ext) == T::spec_parse(bytes),
        T::spec_parse(bytes + ext) matches Ok(Some(hu2)) && hu2.1 <= bytes.len(),
{
    T::lemma_complete_stable(bytes, ext);
    T::lemma_consumed_bounded(bytes);
}

} // verus!
