use vstd::prelude::*;

verus! {

/// Errors of one streaming call.
///
/// `Stream` is the only kind that travels through the event queue; the
/// others are returned by the call that attempted the request.
#[derive(Debug, Clone)]
pub enum DispatchError {
    /// Send or receive failure below the HTTP layer.
    Transport(String),
    /// Non-retryable HTTP outcome: status and the drained body.
    UnexpectedStatus(u16, String),
    /// A retryable status persisted past the retry ceiling.
    RetryLimit(u16),
    /// Failure discovered while decoding the event stream.
    Stream(String),
    /// Failure to resolve a bearer credential.
    Auth(String),
}

/// Mathematical model of a `DispatchError`.
pub enum ErrorView {
    Transport(Seq<char>),
    UnexpectedStatus(u16, Seq<char>),
    RetryLimit(u16),
    Stream(Seq<char>),
    Auth(Seq<char>),
}

impl View for DispatchError {
    type V = ErrorView;

    open spec fn view(&self) -> ErrorView {
        match self {
            DispatchError::Transport(d) => ErrorView::Transport(d@),
            DispatchError::UnexpectedStatus(s, b) => ErrorView::UnexpectedStatus(*s, b@),
            DispatchError::RetryLimit(s) => ErrorView::RetryLimit(*s),
            DispatchError::Stream(d) => ErrorView::Stream(d@),
            DispatchError::Auth(d) => ErrorView::Auth(d@),
        }
    }
}

} // verus!
