//! What goes wrong in a session.

use vstd::prelude::*;

verus! {

/// An error of a session or of a layer below it.
#[derive(Debug)]
pub enum OpenLvError {
    /// The session itself refuses or fails.
    Session(String),
    /// A request was not acknowledged or not answered in time.
    RequestTimeout(String),
    /// A message could not be written or read as JSON.
    Json(serde_json::Error),
    /// A layer below the session failed, with its message.
    Layer(String),
}

/// An [`OpenLvError`] with its text as characters.
pub enum ErrorView {
    Session(Seq<char>),
    RequestTimeout(Seq<char>),
    Json(serde_json::Error),
    Layer(Seq<char>),
}

impl View for OpenLvError {
    type V = ErrorView;

    open spec fn view(&self) -> ErrorView {
        match *self {
            OpenLvError::Session(text) => ErrorView::Session(text@),
            OpenLvError::RequestTimeout(text) => ErrorView::RequestTimeout(text@),
            OpenLvError::Json(error) => ErrorView::Json(error),
            OpenLvError::Layer(text) => ErrorView::Layer(text@),
        }
    }
}

impl From<serde_json::Error> for OpenLvError {
    fn from(error: serde_json::Error) -> (wrapped: Self) {
        OpenLvError::Json(error)
    }
}

impl vstd::std_specs::convert::FromSpecImpl<serde_json::Error> for OpenLvError {
    open spec fn obeys_from_spec() -> bool {
        true
    }

    open spec fn from_spec(error: serde_json::Error) -> Self {
        OpenLvError::Json(error)
    }
}

/// A session error with that text.
pub fn session_error(text: &str) -> (error: OpenLvError)
    ensures
        error@ == ErrorView::Session(text@),
{
    OpenLvError::Session(text.to_owned())
}

/// Two errors are seen to be the same exactly if they are of the same kind and say the
/// same.
pub proof fn law_errors_are_told_apart(a: OpenLvError, b: OpenLvError)
    ensures
        a@ == b@ <==> match (a, b) {
            (OpenLvError::Session(x), OpenLvError::Session(y)) => x@ == y@,
            (OpenLvError::RequestTimeout(x), OpenLvError::RequestTimeout(y)) => x@ == y@,
            (OpenLvError::Json(x), OpenLvError::Json(y)) => x == y,
            (OpenLvError::Layer(x), OpenLvError::Layer(y)) => x@ == y@,
            _ => false,
        },
{
}

/// An error of `serde_json` is kept as it is, and a session error says what it is given.
pub proof fn law_errors_are_kept(
    error: serde_json::Error,
    wrapped: OpenLvError,
    text: &str,
    refused: OpenLvError,
)
    requires
        call_ensures(OpenLvError::from, (error,), wrapped),
        call_ensures(session_error, (text,), refused),
    ensures
        wrapped == OpenLvError::Json(error),
        refused matches OpenLvError::Session(said) && said@ == text@,
{
}

} // verus!
