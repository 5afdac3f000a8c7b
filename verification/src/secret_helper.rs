//! The helper process that fetches a user's key under that user's own
//! identity, seen from both ends of its private channel.
//!
//! The child drops its privileges, asks the secret service, and writes one
//! message. The parent waits for that message against a deadline, makes sure
//! the child is gone, and turns the message into a key or a failure. Forking,
//! system calls and the channel itself are the caller's part: the caller does
//! what an action says and reports back what happened as an event. Every
//! decision in between is taken here.
use crate::codec::{
    base64_decode, base64_decode_unpadded, base64_decodes_to, base64_encode,
    base64_standard_decoding, base64_unpadded_decoding, is_base64_text,
};
use crate::secret_service::{EmbeddingKeyLookupError, EmbeddingKeyStatus, AES_GCM_KEY_BYTES};
use crate::store::lemma_base64_text_is_trimmed;
use crate::text::{decimal, decimal_digits, trim, trimmed};
use vstd::prelude::*;
use vstd::string::StringExecFns;

verus! {

/// What the helper found out.
#[derive(Debug, Clone, PartialEq, Eq)]
pub enum HelperResponse {
    /// The user's key, 32 bytes.
    Key(Vec<u8>),
    /// The service holds no key for the user.
    Missing { message: String },
}

/// Why the helper found out nothing.
#[derive(Debug, Clone, PartialEq, Eq)]
pub enum HelperError {
    /// The secret service cannot be used: face authentication steps aside.
    SecretServiceUnavailable(String),
    /// The helper crashed, timed out or misbehaved.
    IpcFailure(String),
}

/// The kind of an error message on the wire.
#[derive(Debug, Clone, Copy, PartialEq, Eq)]
pub enum HelperWireErrorKind {
    SecretServiceUnavailable,
    InvalidKey,
    IpcFailure,
}

/// The one message the child writes.
#[derive(Debug, Clone, PartialEq, Eq)]
pub enum HelperWireMessage {
    /// The key, base64.
    Found { embedding_key: String },
    Missing { message: String },
    Error { kind: HelperWireErrorKind, message: String },
}

impl HelperWireMessage {
    /// The error message of this kind with these words.
    pub fn error(kind: HelperWireErrorKind, message: &str) -> (msg: HelperWireMessage)
        ensures
            msg matches HelperWireMessage::Error { kind: k, message: m } && k == kind && m@
                == message@,
    {
        HelperWireMessage::Error { kind, message: message.to_owned() }
    }
}

/// What a message means to the parent.
pub enum Reply {
    /// The key with these bytes.
    Key(Seq<u8>),
    /// No key is stored; the child's words follow.
    Missing(Seq<char>),
    /// The secret service is unavailable.
    Unavailable(Seq<char>),
    /// The exchange failed.
    Failure(Seq<char>),
}

/// The meaning of a key as the child sent it: surrounding whitespace is
/// ignored; the text is read as padded base64 and, failing that, as unpadded
/// base64; the result must be 32 bytes.
pub open spec fn key_reply(text: Seq<char>) -> Reply {
    let text = trimmed(text);
    match base64_standard_decoding(text) {
        Ok(bytes) => sized_reply(bytes),
        Err(_) => match base64_unpadded_decoding(text) {
            Ok(bytes) => sized_reply(bytes),
            Err(cause) => Reply::Failure("failed to decode helper key: "@ + cause),
        },
    }
}

/// The key made of `bytes` if they are 32, a failure otherwise.
pub open spec fn sized_reply(bytes: Seq<u8>) -> Reply {
    if bytes.len() == AES_GCM_KEY_BYTES {
        Reply::Key(bytes)
    } else {
        Reply::Failure(
            "helper returned key with "@ + decimal_digits(bytes.len()) + " bytes"@,
        )
    }
}

/// The meaning of a message: a key, its absence, the soft failure of an
/// unavailable secret service, or the hard failure of anything else.
pub open spec fn reply_of(msg: HelperWireMessage) -> Reply {
    match msg {
        HelperWireMessage::Found { embedding_key } => key_reply(embedding_key@),
        HelperWireMessage::Missing { message } => Reply::Missing(message@),
        HelperWireMessage::Error { kind: HelperWireErrorKind::SecretServiceUnavailable, message } =>
            Reply::Unavailable(message@),
        HelperWireMessage::Error { kind: _, message } => Reply::Failure(message@),
    }
}

/// Whether `outcome` says what `reply` means.
pub open spec fn is_reply(outcome: Result<HelperResponse, HelperError>, reply: Reply) -> bool {
    match reply {
        Reply::Key(bytes) => outcome matches Ok(HelperResponse::Key(key)) && key@ == bytes,
        Reply::Missing(words) => outcome matches Ok(HelperResponse::Missing { message })
            && message@ == words,
        Reply::Unavailable(words) => outcome matches Err(
            HelperError::SecretServiceUnavailable(message),
        ) && message@ == words,
        Reply::Failure(words) => outcome matches Err(HelperError::IpcFailure(message)) && message@
            == words,
    }
}

/// Turns the child's message into the helper's outcome.
pub fn translate_message(msg: HelperWireMessage) -> (outcome: Result<HelperResponse, HelperError>)
    ensures
        is_reply(outcome, reply_of(msg)),
{
    match msg {
        HelperWireMessage::Found { embedding_key } => {
            let text = trim(embedding_key.as_str());
            let decoded = match base64_decode(text.as_str()) {
                Ok(bytes) => bytes,
                Err(_) => match base64_decode_unpadded(text.as_str()) {
                    Ok(bytes) => bytes,
                    Err(cause) => {
                        let mut m = "failed to decode helper key: ".to_owned();
                        m.append(cause.as_str());
                        return Err(HelperError::IpcFailure(m));
                    },
                },
            };
            let key_len = decoded.len();
            if key_len != AES_GCM_KEY_BYTES {
                let mut m = "helper returned key with ".to_owned();
                let n = decimal(key_len as u64);
                m.append(n.as_str());
                m.append(" bytes");
                return Err(HelperError::IpcFailure(m));
            }
            Ok(HelperResponse::Key(decoded))
        },
        HelperWireMessage::Missing { message } => Ok(HelperResponse::Missing { message }),
        HelperWireMessage::Error { kind: HelperWireErrorKind::SecretServiceUnavailable, message } =>
            Err(HelperError::SecretServiceUnavailable(message)),
        HelperWireMessage::Error { kind: _, message } => Err(HelperError::IpcFailure(message)),
    }
}

/// What the child says when no key is stored.
pub const KEY_NOT_FOUND: &'static str = "Embedding key not found in Secret Service.";

/// Whether `msg` is the message the child owes for a lookup that came to
/// `found`: the key in base64, the notice that none is stored, the text of
/// the service's failure, or the reason the stored secret is no key.
pub open spec fn is_child_message(
    msg: HelperWireMessage,
    found: Result<EmbeddingKeyStatus, EmbeddingKeyLookupError>,
) -> bool {
    match found {
        Ok(EmbeddingKeyStatus::Present(key)) => msg matches HelperWireMessage::Found { embedding_key }
            && base64_decodes_to(embedding_key@, key@) && is_base64_text(embedding_key@),
        Ok(EmbeddingKeyStatus::Missing) => msg matches HelperWireMessage::Missing { message }
            && message@ == KEY_NOT_FOUND@,
        Err(EmbeddingKeyLookupError::SecretService(err)) => msg matches HelperWireMessage::Error {
            kind: HelperWireErrorKind::SecretServiceUnavailable,
            message,
        } && message@ == err.display_text(),
        Err(EmbeddingKeyLookupError::InvalidFormat { user, reason }) =>
            msg matches HelperWireMessage::Error { kind: HelperWireErrorKind::InvalidKey, message }
                && message@ == reason@,
    }
}

/// The message the child writes for what its lookup came to.
pub fn child_message(found: Result<EmbeddingKeyStatus, EmbeddingKeyLookupError>) -> (msg:
    HelperWireMessage)
    ensures
        is_child_message(msg, found),
        found matches Ok(EmbeddingKeyStatus::Present(key)) ==> reply_of(msg) == Reply::Key(key@),
{
    match found {
        Ok(EmbeddingKeyStatus::Present(key)) => {
            let embedding_key = base64_encode(key.as_bytes());
            proof {
                lemma_base64_text_is_trimmed(embedding_key@);
            }
            HelperWireMessage::Found { embedding_key }
        },
        Ok(EmbeddingKeyStatus::Missing) => HelperWireMessage::Missing {
            message: KEY_NOT_FOUND.to_owned(),
        },
        Err(EmbeddingKeyLookupError::SecretService(err)) => HelperWireMessage::Error {
            kind: HelperWireErrorKind::SecretServiceUnavailable,
            message: err.display(),
        },
        Err(EmbeddingKeyLookupError::InvalidFormat { user, reason }) => HelperWireMessage::Error {
            kind: HelperWireErrorKind::InvalidKey,
            message: reason,
        },
    }
}

/// Where the child stands: what it has asked for and is waiting on.
#[derive(Debug, Clone, Copy, PartialEq, Eq, Structural)]
pub enum ChildState {
    /// Setting the supplementary groups of the target user.
    DroppingGroups,
    /// Setting the group id.
    DroppingGroup,
    /// Setting the user id, after which nothing more can be changed.
    DroppingUser,
    /// Asking the secret service, as the target user.
    Fetching,
    /// The message is written; nothing is left but to exit.
    Done,
}

/// What the caller reports back to the child's logic.
#[derive(Debug)]
pub enum ChildEvent {
    /// The system call asked for succeeded.
    Succeeded,
    /// The system call asked for failed; the text says how.
    Failed(String),
    /// The lookup came to this.
    Fetched(Result<EmbeddingKeyStatus, EmbeddingKeyLookupError>),
}

/// What the child does next.
#[derive(Debug, Clone)]
pub enum ChildAction {
    SetSupplementaryGroups,
    SetGroupId,
    SetUserId,
    FetchKey,
    /// Write this message, close the channel and exit.
    Emit(HelperWireMessage),
    /// Exit; the message was written before.
    Exit,
}

/// What the child says when it is told something it did not ask for.
pub const UNEXPECTED_EVENT: &'static str = "unexpected event in Secret Service helper";

/// Whether `msg` is the failure message with these words.
pub open spec fn is_failure_message(msg: HelperWireMessage, words: Seq<char>) -> bool {
    msg matches HelperWireMessage::Error { kind: HelperWireErrorKind::IpcFailure, message }
        && message@ == words
}

/// The child's first move: it begins to drop its privileges before it does
/// anything else.
pub fn child_start() -> (first: (ChildState, ChildAction))
    ensures
        first.0 == ChildState::DroppingGroups,
        first.1 is SetSupplementaryGroups,
{
    (ChildState::DroppingGroups, ChildAction::SetSupplementaryGroups)
}

/// The state the child moves to from `state` on `event`.
pub open spec fn child_next_state(state: ChildState, event: ChildEvent) -> ChildState {
    match (state, event) {
        (ChildState::DroppingGroups, ChildEvent::Succeeded) => ChildState::DroppingGroup,
        (ChildState::DroppingGroup, ChildEvent::Succeeded) => ChildState::DroppingUser,
        (ChildState::DroppingUser, ChildEvent::Succeeded) => ChildState::Fetching,
        _ => ChildState::Done,
    }
}

/// Whether `action` is what the child does when `event` reaches it in
/// `state`. Privileges go in a fixed order: supplementary groups, then the
/// group id, then the user id. The lookup follows only when all three are
/// gone; a failure on the way is reported and ends the child.
pub open spec fn is_child_action(state: ChildState, event: ChildEvent, action: ChildAction) -> bool {
    match (state, event) {
        (ChildState::Done, _) => action is Exit,
        (ChildState::DroppingGroups, ChildEvent::Succeeded) => action is SetGroupId,
        (ChildState::DroppingGroup, ChildEvent::Succeeded) => action is SetUserId,
        (ChildState::DroppingUser, ChildEvent::Succeeded) => action is FetchKey,
        (ChildState::Fetching, ChildEvent::Fetched(found)) => action matches ChildAction::Emit(msg)
            && is_child_message(msg, found),
        (ChildState::Fetching, _) => action matches ChildAction::Emit(msg) && is_failure_message(
            msg,
            UNEXPECTED_EVENT@,
        ),
        (_, ChildEvent::Failed(words)) => action matches ChildAction::Emit(msg)
            && is_failure_message(msg, words@),
        (_, ChildEvent::Fetched(_)) => action matches ChildAction::Emit(msg) && is_failure_message(
            msg,
            UNEXPECTED_EVENT@,
        ),
    }
}

/// One step of the child.
pub fn child_step(state: ChildState, event: ChildEvent) -> (step: (ChildState, ChildAction))
    ensures
        step.0 == child_next_state(state, event),
        is_child_action(state, event, step.1),
{
    match state {
        ChildState::Done => (ChildState::Done, ChildAction::Exit),
        ChildState::Fetching => match event {
            ChildEvent::Fetched(found) => (ChildState::Done, ChildAction::Emit(child_message(found))),
            _ => (
                ChildState::Done,
                ChildAction::Emit(
                    HelperWireMessage::error(HelperWireErrorKind::IpcFailure, UNEXPECTED_EVENT),
                ),
            ),
        },
        _ => match event {
            ChildEvent::Succeeded => match state {
                ChildState::DroppingGroups => (ChildState::DroppingGroup, ChildAction::SetGroupId),
                ChildState::DroppingGroup => (ChildState::DroppingUser, ChildAction::SetUserId),
                _ => (ChildState::Fetching, ChildAction::FetchKey),
            },
            ChildEvent::Failed(words) => (
                ChildState::Done,
                ChildAction::Emit(
                    HelperWireMessage::error(HelperWireErrorKind::IpcFailure, words.as_str()),
                ),
            ),
            ChildEvent::Fetched(_) => (
                ChildState::Done,
                ChildAction::Emit(
                    HelperWireMessage::error(HelperWireErrorKind::IpcFailure, UNEXPECTED_EVENT),
                ),
            ),
        },
    }
}

/// The child asks the secret service only after the user id was changed, the
/// user id is changed only after the group id, and the group id only after
/// the supplementary groups.
pub proof fn lemma_privileges_drop_in_order(state: ChildState, event: ChildEvent, action: ChildAction)
    requires
        is_child_action(state, event, action),
    ensures
        action is FetchKey ==> state == ChildState::DroppingUser && event is Succeeded,
        action is SetUserId ==> state == ChildState::DroppingGroup && event is Succeeded,
        action is SetGroupId ==> state == ChildState::DroppingGroups && event is Succeeded,
        !(action is SetSupplementaryGroups),
        child_next_state(state, event) == ChildState::Fetching ==> action is FetchKey,
{
}

/// A child that is not yet done writes exactly one message on the way to
/// being done, and a child that is done writes none.
pub proof fn lemma_child_writes_once(state: ChildState, event: ChildEvent, action: ChildAction)
    requires
        is_child_action(state, event, action),
    ensures
        state != ChildState::Done && child_next_state(state, event) == ChildState::Done
            ==> action is Emit,
        state == ChildState::Done ==> action is Exit && child_next_state(state, event)
            == ChildState::Done,
        action is Emit ==> child_next_state(state, event) == ChildState::Done,
{
}

/// How the child ended, as the parent learns when it reaps it.
#[derive(Debug, Clone, PartialEq, Eq)]
pub enum ChildExit {
    /// It exited with status 0.
    Clean,
    /// It ended otherwise; the text describes the status.
    Abnormal(String),
    /// Waiting for it failed; the text says how.
    WaitFailed(String),
}

/// Where the parent stands.
#[derive(Debug, Clone, PartialEq, Eq)]
pub enum ParentState {
    /// The read deadline is being set on the channel.
    Arming,
    /// The reply is awaited, until the deadline.
    Reading,
    /// The reply is in and the child is being reaped.
    Reaping { payload: Vec<u8> },
    /// The exchange failed and the child is being reaped; the failure is
    /// reported once it is gone.
    Failing { failure: String },
    /// The reply is being parsed.
    Parsing,
    /// The outcome was handed out.
    Done,
}

/// What the caller reports back to the parent's logic.
#[derive(Debug, Clone, PartialEq, Eq)]
pub enum ParentEvent {
    /// The read deadline is set.
    Armed,
    /// The read deadline could not be set; the text says why.
    ArmFailed(String),
    /// The channel was read to its end; these bytes came.
    ReadComplete(Vec<u8>),
    /// The deadline passed; the text is the time budget that ran out.
    ReadTimedOut { budget: String },
    /// Reading failed otherwise; the text says how.
    ReadFailed(String),
    /// The child was waited for.
    Exited(ChildExit),
    /// The reply parsed as this message.
    Parsed(HelperWireMessage),
    /// The reply did not parse; the text says why.
    ParseFailed(String),
}

/// What the parent does next.
#[derive(Debug, PartialEq, Eq)]
pub enum ParentAction {
    /// Read the channel to its end or to the deadline.
    Read,
    /// Wait for the child.
    Reap,
    /// Kill the child, then wait for it.
    KillAndReap,
    /// Parse these bytes as the child's message.
    Parse(Vec<u8>),
    /// Hand out the outcome.
    Finish(Result<HelperResponse, HelperError>),
}

/// The parent's first move: it sets the read deadline.
pub fn parent_start() -> (state: ParentState)
    ensures
        state is Arming,
{
    ParentState::Arming
}

/// The words for a read deadline that could not be set.
pub open spec fn arm_failure(cause: Seq<char>) -> Seq<char> {
    "failed to set helper read timeout: "@ + cause
}

/// The words for a child that did not answer within its time budget.
pub open spec fn timeout_failure(budget: Seq<char>) -> Seq<char> {
    "Secret Service helper timed out after "@ + budget
}

/// The words for a read that failed.
pub open spec fn read_failure(cause: Seq<char>) -> Seq<char> {
    "failed to read helper response: "@ + cause
}

/// The words for a child that did not exit cleanly.
pub open spec fn exit_failure(status: Seq<char>) -> Seq<char> {
    "helper exited abnormally: "@ + status
}

/// The words for a child that could not be waited for.
pub open spec fn wait_failure(cause: Seq<char>) -> Seq<char> {
    "waitpid failed: "@ + cause
}

/// The words for a reply that is no message.
pub open spec fn parse_failure(cause: Seq<char>) -> Seq<char> {
    "failed to parse helper response: "@ + cause
}

/// What the parent reports when the child wrote nothing.
pub const NO_RESPONSE: &'static str = "helper produced no response";

/// Whether the parent fails for good with these words as its action.
pub open spec fn finishes_failed(action: ParentAction, words: Seq<char>) -> bool {
    action matches ParentAction::Finish(Err(HelperError::IpcFailure(message))) && message@ == words
}

/// Whether the parent is left waiting for the child to be gone, to fail with
/// these words afterwards.
pub open spec fn fails_after_reaping(next: ParentState, words: Seq<char>) -> bool {
    next matches ParentState::Failing { failure } && failure@ == words
}

/// Whether the parent, on `event` in `state`, moves to `next` and does
/// `action`.
///
/// A deadline that cannot be set, a deadline that passes and a read that
/// fails all end in failure, but only after the child is gone: killed first
/// where it may still be running. A reply counts only from a child that
/// exited cleanly, and an empty reply is a failure. An event that the state
/// did not ask for is a failure of the exchange.
pub open spec fn parent_moves(
    state: ParentState,
    event: ParentEvent,
    next: ParentState,
    action: ParentAction,
) -> bool {
    match state {
        ParentState::Arming => match event {
            ParentEvent::Armed => next is Reading && action is Read,
            ParentEvent::ArmFailed(cause) => fails_after_reaping(next, arm_failure(cause@))
                && action is KillAndReap,
            _ => fails_after_reaping(next, UNEXPECTED_EVENT@) && action is KillAndReap,
        },
        ParentState::Reading => match event {
            ParentEvent::ReadComplete(bytes) => next matches ParentState::Reaping { payload }
                && payload@ == bytes@ && action is Reap,
            ParentEvent::ReadTimedOut { budget } => fails_after_reaping(
                next,
                timeout_failure(budget@),
            ) && action is KillAndReap,
            ParentEvent::ReadFailed(cause) => fails_after_reaping(next, read_failure(cause@))
                && action is Reap,
            _ => fails_after_reaping(next, UNEXPECTED_EVENT@) && action is KillAndReap,
        },
        ParentState::Reaping { payload } => match event {
            ParentEvent::Exited(ChildExit::Clean) => if payload@.len() == 0 {
                next is Done && finishes_failed(action, NO_RESPONSE@)
            } else {
                next is Parsing && (action matches ParentAction::Parse(bytes) && bytes@
                    == payload@)
            },
            ParentEvent::Exited(ChildExit::Abnormal(status)) => next is Done && finishes_failed(
                action,
                exit_failure(status@),
            ),
            ParentEvent::Exited(ChildExit::WaitFailed(cause)) => next is Done && finishes_failed(
                action,
                wait_failure(cause@),
            ),
            _ => fails_after_reaping(next, UNEXPECTED_EVENT@) && action is Reap,
        },
        ParentState::Failing { failure } => match event {
            ParentEvent::Exited(_) => next is Done && finishes_failed(action, failure@),
            _ => fails_after_reaping(next, failure@) && action is Reap,
        },
        ParentState::Parsing => match event {
            ParentEvent::Parsed(msg) => next is Done && (action matches ParentAction::Finish(
                outcome,
            ) && is_reply(outcome, reply_of(msg))),
            ParentEvent::ParseFailed(cause) => next is Done && finishes_failed(
                action,
                parse_failure(cause@),
            ),
            _ => next is Done && finishes_failed(action, UNEXPECTED_EVENT@),
        },
        ParentState::Done => next is Done && finishes_failed(action, UNEXPECTED_EVENT@),
    }
}

fn prefixed(prefix: &str, rest: &str) -> (text: String)
    ensures
        text@ == prefix@ + rest@,
{
    let mut text = prefix.to_owned();
    text.append(rest);
    text
}

fn finish_failed(words: String) -> (action: ParentAction)
    ensures
        finishes_failed(action, words@),
{
    ParentAction::Finish(Err(HelperError::IpcFailure(words)))
}

/// One step of the parent.
pub fn parent_step(state: ParentState, event: ParentEvent) -> (step: (ParentState, ParentAction))
    ensures
        parent_moves(state, event, step.0, step.1),
{
    match state {
        ParentState::Arming => match event {
            ParentEvent::Armed => (ParentState::Reading, ParentAction::Read),
            ParentEvent::ArmFailed(cause) => (
                ParentState::Failing {
                    failure: prefixed("failed to set helper read timeout: ", cause.as_str()),
                },
                ParentAction::KillAndReap,
            ),
            _ => (
                ParentState::Failing { failure: UNEXPECTED_EVENT.to_owned() },
                ParentAction::KillAndReap,
            ),
        },
        ParentState::Reading => match event {
            ParentEvent::ReadComplete(bytes) => (
                ParentState::Reaping { payload: bytes },
                ParentAction::Reap,
            ),
            ParentEvent::ReadTimedOut { budget } => (
                ParentState::Failing {
                    failure: prefixed("Secret Service helper timed out after ", budget.as_str()),
                },
                ParentAction::KillAndReap,
            ),
            ParentEvent::ReadFailed(cause) => (
                ParentState::Failing {
                    failure: prefixed("failed to read helper response: ", cause.as_str()),
                },
                ParentAction::Reap,
            ),
            _ => (
                ParentState::Failing { failure: UNEXPECTED_EVENT.to_owned() },
                ParentAction::KillAndReap,
            ),
        },
        ParentState::Reaping { payload } => match event {
            ParentEvent::Exited(ChildExit::Clean) => {
                if payload.len() == 0 {
                    (ParentState::Done, finish_failed(NO_RESPONSE.to_owned()))
                } else {
                    (ParentState::Parsing, ParentAction::Parse(payload))
                }
            },
            ParentEvent::Exited(ChildExit::Abnormal(status)) => (
                ParentState::Done,
                finish_failed(prefixed("helper exited abnormally: ", status.as_str())),
            ),
            ParentEvent::Exited(ChildExit::WaitFailed(cause)) => (
                ParentState::Done,
                finish_failed(prefixed("waitpid failed: ", cause.as_str())),
            ),
            _ => (ParentState::Failing { failure: UNEXPECTED_EVENT.to_owned() }, ParentAction::Reap),
        },
        ParentState::Failing { failure } => match event {
            ParentEvent::Exited(_) => (ParentState::Done, finish_failed(failure)),
            _ => (ParentState::Failing { failure }, ParentAction::Reap),
        },
        ParentState::Parsing => match event {
            ParentEvent::Parsed(msg) => (
                ParentState::Done,
                ParentAction::Finish(translate_message(msg)),
            ),
            ParentEvent::ParseFailed(cause) => (
                ParentState::Done,
                finish_failed(prefixed("failed to parse helper response: ", cause.as_str())),
            ),
            _ => (ParentState::Done, finish_failed(UNEXPECTED_EVENT.to_owned())),
        },
        ParentState::Done => (ParentState::Done, finish_failed(UNEXPECTED_EVENT.to_owned())),
    }
}

/// Whether the child may still exist in this state: it was forked and has
/// not been waited for.
pub open spec fn child_may_live(state: ParentState) -> bool {
    state is Arming || state is Reading || state is Reaping || state is Failing
}

/// The parent never hands out an outcome while the child may still be
/// running: from a state in which the child was not yet waited for, an
/// outcome follows only on the report that it was. And when the deadline
/// passes the child is killed before it is waited for.
pub proof fn lemma_no_child_is_left_behind(
    state: ParentState,
    event: ParentEvent,
    next: ParentState,
    action: ParentAction,
)
    requires
        parent_moves(state, event, next, action),
    ensures
        child_may_live(state) && action is Finish ==> event is Exited,
        child_may_live(state) && !(event is Exited) ==> child_may_live(next) && !(action is Finish),
        event is ReadTimedOut && (state is Reading || state is Arming) ==> action is KillAndReap,
        (state is Arming || state is Reading) ==> !(next is Done) && !(next is Parsing),
{
}

/// A key reaches the caller only out of a reply that a cleanly exited child
/// wrote: the only step that hands out a success is the one from parsing.
pub proof fn lemma_success_needs_a_parsed_reply(
    state: ParentState,
    event: ParentEvent,
    next: ParentState,
    action: ParentAction,
)
    requires
        parent_moves(state, event, next, action),
        action matches ParentAction::Finish(Ok(_)),
    ensures
        state is Parsing,
        event is Parsed,
{
}

} // verus!
