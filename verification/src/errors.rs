//! The closed set of failure kinds a library operation can return.

use vstd::prelude::*;

verus! {

/// A failure of a search or summary operation.
#[derive(Debug, Clone)]
pub enum WikiError {
    /// The searched page wasn't found; carries the original search term.
    PageNotFoundError(String),
    /// Making a Wikipedia request failed.
    PageRequestError,
    /// The response body did not match the expected JSON wire shape.
    JsonParseError,
    /// The response matched the wire shape but held no page entries.
    ResponseError,
}

/// Mathematical image of a `WikiError`, with the term as a character sequence.
pub enum ErrorView {
    PageNotFound { term: Seq<char> },
    PageRequest,
    JsonParse,
    Response,
}

impl View for WikiError {
    type V = ErrorView;

    open spec fn view(&self) -> ErrorView {
        match self {
            WikiError::PageNotFoundError(t) => ErrorView::PageNotFound { term: t@ },
            WikiError::PageRequestError => ErrorView::PageRequest,
            WikiError::JsonParseError => ErrorView::JsonParse,
            WikiError::ResponseError => ErrorView::Response,
        }
    }
}

impl DeepView for WikiError {
    type V = ErrorView;

    open spec fn deep_view(&self) -> ErrorView {
        self.view()
    }
}

/// The mathematical image of an operation's outcome: the view of the carried
/// value on success, the view of the `WikiError` on failure.
pub open spec fn result_view<T: View>(r: Result<T, WikiError>) -> Result<T::V, ErrorView> {
    match r {
        Ok(v) => Ok(v@),
        Err(e) => Err(e@),
    }
}

impl PartialEq for WikiError {
    fn eq(&self, other: &WikiError) -> (r: bool) {
        match (self, other) {
            (WikiError::PageNotFoundError(a), WikiError::PageNotFoundError(b)) => *a == *b,
            (WikiError::PageRequestError, WikiError::PageRequestError) => true,
            (WikiError::JsonParseError, WikiError::JsonParseError) => true,
            (WikiError::ResponseError, WikiError::ResponseError) => true,
            _ => false,
        }
    }
}

impl vstd::std_specs::cmp::PartialEqSpecImpl for WikiError {
    open spec fn obeys_eq_spec() -> bool {
        true
    }

    open spec fn eq_spec(&self, other: &WikiError) -> bool {
        match (self, other) {
            (WikiError::PageNotFoundError(a), WikiError::PageNotFoundError(b)) => a@ == b@,
            (WikiError::PageRequestError, WikiError::PageRequestError) => true,
            (WikiError::JsonParseError, WikiError::JsonParseError) => true,
            (WikiError::ResponseError, WikiError::ResponseError) => true,
            _ => false,
        }
    }
}

impl WikiError {
    /// The stable one-line human-readable rendering of this error.
    pub open spec fn spec_message(&self) -> Seq<char> {
        match self {
            WikiError::PageNotFoundError(t) => "PageNotFound: Couldn't find '"@ + t@ + "'."@,
            WikiError::PageRequestError => "PageRequestError: Internal error."@,
            WikiError::JsonParseError => "JsonParseError: Internal response parsing error."@,
            WikiError::ResponseError => "ResponseError: Wikipedia returned an unexpected result."@,
        }
    }

    /// Render the error as a one-line human-readable message.
    pub fn message(&self) -> (r: String)
        ensures
            r@ == self.spec_message(),
    {
        match self {
            WikiError::PageNotFoundError(t) => {
                let mut m = String::from_str("PageNotFound: Couldn't find '");
                m.append(t.as_str());
                m.append("'.");
                m
            },
            WikiError::PageRequestError => String::from_str("PageRequestError: Internal error."),
            WikiError::JsonParseError => String::from_str(
                "JsonParseError: Internal response parsing error.",
            ),
            WikiError::ResponseError => String::from_str(
                "ResponseError: Wikipedia returned an unexpected result.",
            ),
        }
    }
}

} // verus!
