//! Outcome classification for the resource fetcher, and the request keys
//! that identify each fetch.
//!
//! The transport work itself — issuing the HTTP request and decoding the
//! body — happens outside this library. The shell reports what happened as
//! a [`FetchEvent`], and [`classify`] turns that report into the terminal
//! `Result` a view binding settles with. Failures are terminal for the
//! invocation: no retry, no local recovery.

use vstd::prelude::*;

verus! {

/// Why a fetch failed: the transport never produced a response, or the
/// response body did not match the expected envelope shape. Each variant
/// carries a human-readable detail for diagnostics.
#[derive(Clone, PartialEq, Debug)]
pub enum FetchError {
    Network(String),
    Decode(String),
}

/// Ghost image of a [`FetchError`].
pub enum FetchErrorV {
    Network(Seq<char>),
    Decode(Seq<char>),
}

impl DeepView for FetchError {
    type V = FetchErrorV;

    open spec fn deep_view(&self) -> FetchErrorV {
        match self {
            FetchError::Network(detail) => FetchErrorV::Network(detail.deep_view()),
            FetchError::Decode(detail) => FetchErrorV::Decode(detail.deep_view()),
        }
    }
}

/// What the transport layer reports for one invocation: an envelope that
/// decoded to the expected shape, a transport-level failure, or a body
/// that could not be decoded.
#[derive(Clone, PartialEq, Debug)]
pub enum FetchEvent<T> {
    Received(T),
    TransportFailed(String),
    BodyUndecodable(String),
}

/// The outcome a fetch event settles to: decode success is overall
/// success; the two failure shapes map onto the error taxonomy.
pub open spec fn outcome_of<T>(event: FetchEvent<T>) -> Result<T, FetchError> {
    match event {
        FetchEvent::Received(envelope) => Ok(envelope),
        FetchEvent::TransportFailed(detail) => Err(FetchError::Network(detail)),
        FetchEvent::BodyUndecodable(detail) => Err(FetchError::Decode(detail)),
    }
}

/// Classifies one settled fetch: a decoded envelope is success, a
/// transport failure is [`FetchError::Network`], an undecodable body is
/// [`FetchError::Decode`].
pub fn classify<T>(event: FetchEvent<T>) -> (outcome: Result<T, FetchError>)
    ensures
        outcome == outcome_of(event),
{
    match event {
        FetchEvent::Received(envelope) => Ok(envelope),
        FetchEvent::TransportFailed(detail) => Err(FetchError::Network(detail)),
        FetchEvent::BodyUndecodable(detail) => Err(FetchError::Decode(detail)),
    }
}

/// The request key of one fetch: which endpoint is called, with the route
/// parameter that selects the record for the detail views. Two fetches are
/// "the same" exactly when their keys are equal.
#[derive(Clone, PartialEq, Debug)]
pub enum Endpoint {
    Quotes,
    Authors,
    AuthorDetail { id: String },
    Tags,
    TagDetail { id: String },
    SubmitQuote,
}

impl Endpoint {
    /// Whether the request carries a body: only the quote-creation
    /// endpoint does, and it is the one POST.
    pub fn carries_body(&self) -> (yes: bool)
        ensures
            yes == (*self is SubmitQuote),
    {
        match self {
            Endpoint::SubmitQuote => true,
            _ => false,
        }
    }
}

} // verus!
