use vstd::prelude::*;

verus! {

/// Every way a completion request can fail before its event stream starts.
#[derive(Clone, Copy, Debug, PartialEq, Eq, Structural)]
pub enum ChatError {
    /// The bearer key does not match the configured gateway key.
    InvalidKey,
    /// The public model identifier names no known model.
    InvalidModel,
    /// The request holds no messages, so there is no prompt to send.
    EmptyConversation,
    /// The upstream could not be reached (DNS, connect, timeout).
    UpstreamTransport,
    /// The conversation-create call answered with a status outside 2xx.
    UpstreamStatus(u16),
    /// The conversation-create answer is not JSON, or carries no string `id`.
    UpstreamFormat,
    /// The upstream event stream could not be opened.
    StreamOpen,
}

} // verus!
