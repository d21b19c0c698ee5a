use crate::errors::Error;
use crate::messages::{Field, get_text, hello, text_field, BoltResponse, HelloRequest, Version, USER_AGENT};
use vstd::prelude::*;

verus! {

/// Where the establishment of one connection stands.
#[derive(Debug, PartialEq)]
pub enum HandshakeState {
    /// The transport is being opened.
    Connecting,
    /// The transport is open and the hello request is under way.
    AwaitingHello { version: Version },
    /// The server accepted the credentials: the session may carry queries.
    Authenticated { version: Version },
    /// The connection failed and must not be used.
    Failed { error: Error },
}

/// What the driver of a handshake observed.
#[derive(Debug, PartialEq)]
pub enum HandshakeEvent {
    /// The transport opened, with the negotiated version.
    Opened { version: Version },
    /// The transport could not be opened.
    OpenFailed { detail: String },
    /// The server answered the hello request.
    Replied { response: BoltResponse },
    /// Sending the hello request or receiving its answer failed.
    ExchangeFailed { detail: String },
}

/// What the driver of a handshake must do next.
#[derive(Debug, PartialEq)]
pub enum HandshakeAction {
    /// Open a transport to `uri`.
    Open { uri: String },
    /// Send `request` and wait for exactly one reply.
    SendHello { request: HelloRequest },
    /// Stop: the state is final.
    Finish,
}

impl HandshakeState {
    pub open spec fn is_final(self) -> bool {
        self is Authenticated || self is Failed
    }

    /// Whether the state is final.
    pub fn is_done(&self) -> (r: bool)
        ensures
            r == self.is_final(),
    {
        match self {
            HandshakeState::Authenticated { .. } => true,
            HandshakeState::Failed { .. } => true,
            _ => false,
        }
    }
}

/// The outcome of the server's reply to hello, once the transport opened with
/// `version`.
pub open spec fn reply_outcome(version: Version, response: BoltResponse) -> HandshakeState {
    match response {
        BoltResponse::SuccessMessage(_) => HandshakeState::Authenticated { version },
        BoltResponse::FailureMessage(fields) => match text_field(fields@, "message"@) {
            Some(detail) => HandshakeState::Failed { error: Error::AuthenticationError { detail } },
            None => HandshakeState::Failed { error: Error::MalformedResponse },
        },
        _ => HandshakeState::Failed { error: Error::UnexpectedMessage },
    }
}

/// One transition of the handshake. An event that does not fit the state
/// leaves the state as it is; final states never change.
pub open spec fn next_state(state: HandshakeState, event: HandshakeEvent) -> HandshakeState {
    match (state, event) {
        (HandshakeState::Connecting, HandshakeEvent::Opened { version }) =>
            HandshakeState::AwaitingHello { version },
        (HandshakeState::Connecting, HandshakeEvent::OpenFailed { detail }) =>
            HandshakeState::Failed { error: Error::ConnectionError { detail } },
        (HandshakeState::AwaitingHello { version }, HandshakeEvent::Replied { response }) =>
            reply_outcome(version, response),
        (HandshakeState::AwaitingHello { .. }, HandshakeEvent::ExchangeFailed { detail }) =>
            HandshakeState::Failed { error: Error::ConnectionError { detail } },
        (state, _) => state,
    }
}

/// Whether `action` is what a driver in `state` must do, for a server at `uri`
/// and the given credentials.
pub open spec fn action_for(
    action: HandshakeAction,
    state: HandshakeState,
    uri: String,
    principal: String,
    credentials: String,
) -> bool {
    match state {
        HandshakeState::Connecting => action == HandshakeAction::Open { uri },
        HandshakeState::AwaitingHello { .. } => match action {
            HandshakeAction::SendHello { request } => {
                &&& request.user_agent@ == USER_AGENT@
                &&& request.principal == principal
                &&& request.credentials == credentials
            },
            _ => false,
        },
        _ => action is Finish,
    }
}

/// The outcome of a handshake in which the transport opened with `version`
/// and the server answered hello with `response`.
pub open spec fn handshake_outcome(version: Version, response: BoltResponse) -> HandshakeState {
    next_state(
        next_state(HandshakeState::Connecting, HandshakeEvent::Opened { version }),
        HandshakeEvent::Replied { response },
    )
}

/// Classifies the server's reply to hello.
pub fn classify_reply(version: Version, response: BoltResponse) -> (r: HandshakeState)
    ensures
        r == reply_outcome(version, response),
{
    match response {
        BoltResponse::SuccessMessage(_) => HandshakeState::Authenticated { version },
        BoltResponse::FailureMessage(fields) => {
            let key = "message".to_owned();
            match get_text(&fields, &key) {
                Some(detail) => HandshakeState::Failed {
                    error: Error::AuthenticationError { detail },
                },
                None => HandshakeState::Failed { error: Error::MalformedResponse },
            }
        },
        _ => HandshakeState::Failed { error: Error::UnexpectedMessage },
    }
}

/// Applies `event` to `state`.
pub fn advance(state: HandshakeState, event: HandshakeEvent) -> (r: HandshakeState)
    ensures
        r == next_state(state, event),
{
    match (state, event) {
        (HandshakeState::Connecting, HandshakeEvent::Opened { version }) =>
            HandshakeState::AwaitingHello { version },
        (HandshakeState::Connecting, HandshakeEvent::OpenFailed { detail }) =>
            HandshakeState::Failed { error: Error::ConnectionError { detail } },
        (HandshakeState::AwaitingHello { version }, HandshakeEvent::Replied { response }) =>
            classify_reply(version, response),
        (HandshakeState::AwaitingHello { .. }, HandshakeEvent::ExchangeFailed { detail }) =>
            HandshakeState::Failed { error: Error::ConnectionError { detail } },
        (state, _) => state,
    }
}

/// The action that a driver in `state` must take.
pub fn next_action(state: &HandshakeState, uri: &String, principal: &String, credentials: &String) -> (r: HandshakeAction)
    ensures
        action_for(r, *state, *uri, *principal, *credentials),
{
    match state {
        HandshakeState::Connecting => HandshakeAction::Open { uri: uri.clone() },
        HandshakeState::AwaitingHello { .. } => HandshakeAction::SendHello {
            request: hello(principal, credentials),
        },
        _ => HandshakeAction::Finish,
    }
}

/// Without a field named `key`, there is no text under `key`.
pub proof fn lemma_absent_key_has_no_text(fields: Seq<Field>, key: Seq<char>)
    requires
        forall|i: int| 0 <= i < fields.len() ==> #[trigger] fields[i].key@ != key,
    ensures
        text_field(fields, key) is None,
    decreases fields.len(),
{
    if fields.len() > 0 {
        assert(fields[0].key@ != key);
        assert forall|i: int| 0 <= i < fields.drop_first().len() implies #[trigger] fields.drop_first()[i].key@ != key by {
            assert(fields.drop_first()[i] == fields[i + 1]);
        }
        lemma_absent_key_has_no_text(fields.drop_first(), key);
    }
}

/// When the server accepts hello, the handshake ends authenticated, carrying
/// the version negotiated when the transport opened.
pub proof fn lemma_accepted_hello_authenticates(version: Version, metadata: Vec<Field>)
    ensures
        handshake_outcome(version, BoltResponse::SuccessMessage(metadata))
            == (HandshakeState::Authenticated { version }),
{
}

/// When the server refuses hello with a textual `message`, the handshake fails
/// with an authentication error whose detail is exactly that text.
pub proof fn lemma_refused_hello_reports_message(version: Version, metadata: Vec<Field>, detail: String)
    requires
        text_field(metadata@, "message"@) == Some(detail),
    ensures
        handshake_outcome(version, BoltResponse::FailureMessage(metadata))
            == (HandshakeState::Failed { error: Error::AuthenticationError { detail } }),
{
}

/// When the server refuses hello without a field named `message`, the
/// handshake fails with a malformed-response error.
pub proof fn lemma_refusal_without_message_is_malformed(version: Version, metadata: Vec<Field>)
    requires
        forall|i: int| 0 <= i < metadata@.len() ==> #[trigger] metadata@[i].key@ != "message"@,
    ensures
        handshake_outcome(version, BoltResponse::FailureMessage(metadata))
            == (HandshakeState::Failed { error: Error::MalformedResponse }),
{
    lemma_absent_key_has_no_text(metadata@, "message"@);
}

/// When the server answers hello with neither success nor failure, the
/// handshake fails with an unexpected-message error.
pub proof fn lemma_other_reply_is_unexpected(version: Version, response: BoltResponse)
    requires
        !(response is SuccessMessage),
        !(response is FailureMessage),
    ensures
        handshake_outcome(version, response) == (HandshakeState::Failed { error: Error::UnexpectedMessage }),
{
}

/// A final state is never left, whatever the driver reports next.
pub proof fn lemma_final_states_are_kept(state: HandshakeState, event: HandshakeEvent)
    requires
        state.is_final(),
    ensures
        next_state(state, event) == state,
{
}

} // verus!
