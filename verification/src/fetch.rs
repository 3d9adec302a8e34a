//! Fetch outcomes: what one attempt to retrieve a payload amounts to.
//! The retrieval itself is made by the caller; nothing here touches a network.

use vstd::prelude::*;

verus! {

/// How the text of a payload is encoded.
#[derive(Clone, Copy, PartialEq, Eq, Structural, Debug)]
pub enum Encoding {
    /// A JSON array of objects, one object for each row.
    Json,
}

/// Where the payload of a dataset is retrieved from.
#[derive(Debug, PartialEq, Eq)]
pub struct SourceLocator {
    pub url: String,
}

impl View for SourceLocator {
    type V = Seq<char>;

    open spec fn view(&self) -> Seq<char> {
        self.url@
    }
}

impl Clone for SourceLocator {
    fn clone(&self) -> (r: Self)
        ensures
            r@ == self@,
    {
        SourceLocator { url: self.url.clone() }
    }
}

/// A payload as it was retrieved: its text, and how the text is encoded.
#[derive(Debug, PartialEq, Eq)]
pub struct RawPayload {
    pub encoding: Encoding,
    pub body: String,
}

/// A payload as the contracts see it.
pub struct RawPayloadView {
    pub encoding: Encoding,
    pub body: Seq<char>,
}

impl View for RawPayload {
    type V = RawPayloadView;

    open spec fn view(&self) -> RawPayloadView {
        RawPayloadView { encoding: self.encoding, body: self.body@ }
    }
}

/// Why no payload was retrieved.
#[derive(Clone, Copy, PartialEq, Eq, Structural, Debug)]
pub enum FetchError {
    /// No connection to the source could be made.
    Unreachable,
    /// The source answered with a status that is no success.
    HttpStatus(u16),
    /// The source did not answer in time.
    Timeout,
}

/// What one attempt to retrieve a payload came to.
#[derive(Debug, PartialEq, Eq)]
pub enum Attempt {
    /// The source answered with a status and a body.
    Answered(u16, String),
    /// No connection could be made.
    NoConnection,
    /// The time allowed ran out.
    TimedOut,
}

/// An attempt as the contracts see it.
pub enum AttemptView {
    Answered(u16, Seq<char>),
    NoConnection,
    TimedOut,
}

impl View for Attempt {
    type V = AttemptView;

    open spec fn view(&self) -> AttemptView {
        match self {
            Attempt::Answered(status, body) => AttemptView::Answered(*status, body@),
            Attempt::NoConnection => AttemptView::NoConnection,
            Attempt::TimedOut => AttemptView::TimedOut,
        }
    }
}

/// A status of success: 200 to 299.
pub open spec fn is_success(status: u16) -> bool {
    200 <= status <= 299
}

/// What an attempt amounts to: the body of an answer of success as a payload
/// of the given encoding, and an error for anything else.
pub open spec fn fetched(attempt: AttemptView, encoding: Encoding) -> Result<
    RawPayloadView,
    FetchError,
> {
    match attempt {
        AttemptView::Answered(status, body) => if is_success(status) {
            Ok(RawPayloadView { encoding, body })
        } else {
            Err(FetchError::HttpStatus(status))
        },
        AttemptView::NoConnection => Err(FetchError::Unreachable),
        AttemptView::TimedOut => Err(FetchError::Timeout),
    }
}

/// A result of the fetcher as the contracts see it.
pub open spec fn fetch_view(outcome: Result<RawPayload, FetchError>) -> Result<
    RawPayloadView,
    FetchError,
> {
    match outcome {
        Ok(payload) => Ok(payload@),
        Err(error) => Err(error),
    }
}

/// Judges one attempt: the payload it retrieved, or the error it stands for.
/// Nothing is tried again.
pub fn interpret(attempt: Attempt, encoding: Encoding) -> (r: Result<RawPayload, FetchError>)
    ensures
        fetch_view(r) == fetched(attempt@, encoding),
{
    match attempt {
        Attempt::Answered(status, body) => {
            if 200 <= status && status <= 299 {
                Ok(RawPayload { encoding, body })
            } else {
                Err(FetchError::HttpStatus(status))
            }
        },
        Attempt::NoConnection => Err(FetchError::Unreachable),
        Attempt::TimedOut => Err(FetchError::Timeout),
    }
}

} // verus!
