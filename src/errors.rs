use vstd::prelude::*;

verus! {

/// Why a connection could not be established.
#[derive(Debug, PartialEq, Eq)]
pub enum Error {
    /// The transport could not be opened, or an exchange on it failed.
    ConnectionError { detail: String },
    /// The server refused the credentials; `detail` is the server's message.
    AuthenticationError { detail: String },
    /// The server answered the handshake with a message it may not send there.
    UnexpectedMessage,
    /// The server's failure reply carries no textual `message` field.
    MalformedResponse,
}

} // verus!
