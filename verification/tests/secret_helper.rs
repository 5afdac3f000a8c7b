use base64::{engine::general_purpose, Engine as _};
use chissu_pam::secret_helper::{
    child_message, child_start, child_step, parent_start, parent_step, translate_message,
    ChildAction, ChildEvent, ChildExit, ChildState, HelperError, HelperResponse,
    HelperWireErrorKind, HelperWireMessage, ParentAction, ParentEvent, ParentState,
};
use chissu_pam::secret_service::{
    EmbeddingKey, EmbeddingKeyLookupError, EmbeddingKeyStatus, SecretServiceError,
    AES_GCM_KEY_BYTES,
};

#[test]
fn translate_message_accepts_ok_payload() {
    let payload = HelperWireMessage::Found {
        embedding_key: general_purpose::STANDARD.encode([0x11u8; AES_GCM_KEY_BYTES]),
    };
    let response = translate_message(payload).unwrap();
    match response {
        HelperResponse::Key(bytes) => assert_eq!(bytes.len(), AES_GCM_KEY_BYTES),
        _ => panic!("unexpected helper response"),
    }
}

#[test]
fn translate_message_maps_missing_to_response() {
    let response =
        translate_message(HelperWireMessage::Missing { message: "no key".into() }).unwrap();
    match response {
        HelperResponse::Missing { message } => assert_eq!(message, "no key"),
        _ => panic!("expected missing variant"),
    }
}

#[test]
fn translate_message_maps_secret_service_error() {
    let err = translate_message(HelperWireMessage::Error {
        kind: HelperWireErrorKind::SecretServiceUnavailable,
        message: "locked".into(),
    })
    .unwrap_err();
    match err {
        HelperError::SecretServiceUnavailable(message) => assert_eq!(message, "locked"),
        _ => panic!("expected secret service error"),
    }
}

#[test]
fn translate_message_returns_the_bytes_of_the_key() {
    let raw: Vec<u8> = (100u8..132).collect();
    let text = format!(" {}\n", general_purpose::STANDARD.encode(&raw));
    assert_eq!(
        translate_message(HelperWireMessage::Found { embedding_key: text }),
        Ok(HelperResponse::Key(raw.clone()))
    );
    let unpadded = general_purpose::STANDARD_NO_PAD.encode(&raw);
    assert_eq!(
        translate_message(HelperWireMessage::Found { embedding_key: unpadded }),
        Ok(HelperResponse::Key(raw))
    );
}

#[test]
fn translate_message_refuses_keys_of_the_wrong_length() {
    let short = general_purpose::STANDARD.encode([1u8; 16]);
    assert_eq!(
        translate_message(HelperWireMessage::Found { embedding_key: short }),
        Err(HelperError::IpcFailure("helper returned key with 16 bytes".into()))
    );
    assert_eq!(
        translate_message(HelperWireMessage::Found { embedding_key: "".into() }),
        Err(HelperError::IpcFailure("helper returned key with 0 bytes".into()))
    );
}

#[test]
fn translate_message_refuses_keys_that_are_not_base64() {
    let cause = general_purpose::STANDARD_NO_PAD.decode("***").unwrap_err();
    assert_eq!(
        translate_message(HelperWireMessage::Found { embedding_key: "***".into() }),
        Err(HelperError::IpcFailure(format!("failed to decode helper key: {cause}")))
    );
}

#[test]
fn translate_message_treats_other_errors_as_failures() {
    for kind in [HelperWireErrorKind::InvalidKey, HelperWireErrorKind::IpcFailure] {
        assert_eq!(
            translate_message(HelperWireMessage::error(kind, "broken")),
            Err(HelperError::IpcFailure("broken".into()))
        );
    }
}

#[test]
fn child_reports_what_the_lookup_came_to() {
    let key = EmbeddingKey::from_bytes(vec![9u8; 32]).unwrap();
    assert_eq!(
        child_message(Ok(EmbeddingKeyStatus::Present(key))),
        HelperWireMessage::Found { embedding_key: general_purpose::STANDARD.encode([9u8; 32]) }
    );
    assert_eq!(
        child_message(Ok(EmbeddingKeyStatus::Missing)),
        HelperWireMessage::Missing {
            message: "Embedding key not found in Secret Service.".into()
        }
    );
    assert_eq!(
        child_message(Err(EmbeddingKeyLookupError::SecretService(SecretServiceError::new(
            "alice",
            "chissu-pam",
            "locked"
        )))),
        HelperWireMessage::Error {
            kind: HelperWireErrorKind::SecretServiceUnavailable,
            message: "Secret Service unavailable for user 'alice' (service 'chissu-pam'): locked"
                .into(),
        }
    );
    assert_eq!(
        child_message(Err(EmbeddingKeyLookupError::InvalidFormat {
            user: "alice".into(),
            reason: "expected 32 bytes but found 3".into(),
        })),
        HelperWireMessage::Error {
            kind: HelperWireErrorKind::InvalidKey,
            message: "expected 32 bytes but found 3".into(),
        }
    );
}

#[test]
fn what_the_child_sends_the_parent_understands() {
    let key = EmbeddingKey::generate();
    let bytes = key.as_bytes().to_vec();
    let message = child_message(Ok(EmbeddingKeyStatus::Present(key)));
    assert_eq!(translate_message(message), Ok(HelperResponse::Key(bytes)));
}

#[test]
fn child_drops_privileges_in_order_before_it_fetches() {
    let (state, action) = child_start();
    assert_eq!(state, ChildState::DroppingGroups);
    assert!(matches!(action, ChildAction::SetSupplementaryGroups));
    let (state, action) = child_step(state, ChildEvent::Succeeded);
    assert_eq!(state, ChildState::DroppingGroup);
    assert!(matches!(action, ChildAction::SetGroupId));
    let (state, action) = child_step(state, ChildEvent::Succeeded);
    assert_eq!(state, ChildState::DroppingUser);
    assert!(matches!(action, ChildAction::SetUserId));
    let (state, action) = child_step(state, ChildEvent::Succeeded);
    assert_eq!(state, ChildState::Fetching);
    assert!(matches!(action, ChildAction::FetchKey));
    let (state, action) = child_step(state, ChildEvent::Fetched(Ok(EmbeddingKeyStatus::Missing)));
    assert_eq!(state, ChildState::Done);
    match action {
        ChildAction::Emit(HelperWireMessage::Missing { message }) => {
            assert_eq!(message, "Embedding key not found in Secret Service.")
        }
        other => panic!("unexpected action: {other:?}"),
    }
    let (state, action) = child_step(state, ChildEvent::Succeeded);
    assert_eq!(state, ChildState::Done);
    assert!(matches!(action, ChildAction::Exit));
}

#[test]
fn child_reports_a_failed_privilege_drop_and_never_fetches() {
    for steps in 0..3 {
        let (mut state, _) = child_start();
        for _ in 0..steps {
            state = child_step(state, ChildEvent::Succeeded).0;
        }
        let (state, action) = child_step(state, ChildEvent::Failed("EPERM".into()));
        assert_eq!(state, ChildState::Done);
        match action {
            ChildAction::Emit(HelperWireMessage::Error { kind, message }) => {
                assert_eq!(kind, HelperWireErrorKind::IpcFailure);
                assert_eq!(message, "EPERM");
            }
            other => panic!("unexpected action: {other:?}"),
        }
    }
}

#[test]
fn child_treats_an_event_it_did_not_ask_for_as_a_failure() {
    let (state, _) = child_start();
    let (state, action) = child_step(state, ChildEvent::Fetched(Ok(EmbeddingKeyStatus::Missing)));
    assert_eq!(state, ChildState::Done);
    match action {
        ChildAction::Emit(HelperWireMessage::Error { kind, message }) => {
            assert_eq!(kind, HelperWireErrorKind::IpcFailure);
            assert_eq!(message, "unexpected event in Secret Service helper");
        }
        other => panic!("unexpected action: {other:?}"),
    }
    let (state, action) = child_step(ChildState::Fetching, ChildEvent::Succeeded);
    assert_eq!(state, ChildState::Done);
    assert!(matches!(action, ChildAction::Emit(HelperWireMessage::Error { .. })));
}

fn run_parent(events: Vec<ParentEvent>) -> (Vec<String>, Result<HelperResponse, HelperError>) {
    let mut state = parent_start();
    let mut trail = vec!["SetReadDeadline".to_string()];
    for event in events {
        let (next, action) = parent_step(state, event);
        state = next;
        match action {
            ParentAction::Read => trail.push("Read".into()),
            ParentAction::Reap => trail.push("Reap".into()),
            ParentAction::KillAndReap => trail.push("KillAndReap".into()),
            ParentAction::Parse(_) => trail.push("Parse".into()),
            ParentAction::Finish(outcome) => {
                assert_eq!(state, ParentState::Done);
                return (trail, outcome);
            }
        }
    }
    panic!("the parent did not finish: {trail:?}");
}

#[test]
fn parent_hands_out_the_key_of_a_clean_exchange() {
    let raw = vec![3u8; 32];
    let (trail, outcome) = run_parent(vec![
        ParentEvent::Armed,
        ParentEvent::ReadComplete(b"{\"status\":\"ok\"}\n".to_vec()),
        ParentEvent::Exited(ChildExit::Clean),
        ParentEvent::Parsed(HelperWireMessage::Found {
            embedding_key: general_purpose::STANDARD.encode(&raw),
        }),
    ]);
    assert_eq!(trail, vec!["SetReadDeadline", "Read", "Reap", "Parse"]);
    assert_eq!(outcome, Ok(HelperResponse::Key(raw)));
}

#[test]
fn parent_kills_and_reaps_a_child_that_does_not_answer_in_time() {
    let (trail, outcome) = run_parent(vec![
        ParentEvent::Armed,
        ParentEvent::ReadTimedOut { budget: "5s".into() },
        ParentEvent::Exited(ChildExit::Abnormal("Signaled(SIGKILL)".into())),
    ]);
    assert_eq!(trail, vec!["SetReadDeadline", "Read", "KillAndReap"]);
    assert_eq!(
        outcome,
        Err(HelperError::IpcFailure("Secret Service helper timed out after 5s".into()))
    );
}

#[test]
fn parent_waits_for_the_child_before_it_reports_a_timeout() {
    let state = parent_start();
    let (state, _) = parent_step(state, ParentEvent::Armed);
    let (state, action) = parent_step(state, ParentEvent::ReadTimedOut { budget: "1s".into() });
    assert_eq!(action, ParentAction::KillAndReap);
    assert_eq!(
        state,
        ParentState::Failing { failure: "Secret Service helper timed out after 1s".into() }
    );
    let (state, action) = parent_step(state, ParentEvent::ReadFailed("late".into()));
    assert_eq!(action, ParentAction::Reap);
    assert!(matches!(state, ParentState::Failing { .. }));
}

#[test]
fn parent_reaps_after_a_failed_read() {
    let (trail, outcome) = run_parent(vec![
        ParentEvent::Armed,
        ParentEvent::ReadFailed("connection reset".into()),
        ParentEvent::Exited(ChildExit::Clean),
    ]);
    assert_eq!(trail, vec!["SetReadDeadline", "Read", "Reap"]);
    assert_eq!(
        outcome,
        Err(HelperError::IpcFailure("failed to read helper response: connection reset".into()))
    );
}

#[test]
fn parent_does_not_leave_the_child_behind_when_the_deadline_cannot_be_set() {
    let (trail, outcome) = run_parent(vec![
        ParentEvent::ArmFailed("zero duration".into()),
        ParentEvent::Exited(ChildExit::Clean),
    ]);
    assert_eq!(trail, vec!["SetReadDeadline", "KillAndReap"]);
    assert_eq!(
        outcome,
        Err(HelperError::IpcFailure("failed to set helper read timeout: zero duration".into()))
    );
}

#[test]
fn parent_requires_a_clean_exit() {
    let (_, outcome) = run_parent(vec![
        ParentEvent::Armed,
        ParentEvent::ReadComplete(b"{}".to_vec()),
        ParentEvent::Exited(ChildExit::Abnormal("Exited(Pid(7), 1)".into())),
    ]);
    assert_eq!(
        outcome,
        Err(HelperError::IpcFailure("helper exited abnormally: Exited(Pid(7), 1)".into()))
    );
    let (_, outcome) = run_parent(vec![
        ParentEvent::Armed,
        ParentEvent::ReadComplete(b"{}".to_vec()),
        ParentEvent::Exited(ChildExit::WaitFailed("ECHILD".into())),
    ]);
    assert_eq!(outcome, Err(HelperError::IpcFailure("waitpid failed: ECHILD".into())));
}

#[test]
fn parent_refuses_an_empty_reply() {
    let (trail, outcome) = run_parent(vec![
        ParentEvent::Armed,
        ParentEvent::ReadComplete(Vec::new()),
        ParentEvent::Exited(ChildExit::Clean),
    ]);
    assert_eq!(trail, vec!["SetReadDeadline", "Read", "Reap"]);
    assert_eq!(outcome, Err(HelperError::IpcFailure("helper produced no response".into())));
}

#[test]
fn parent_reports_a_reply_that_does_not_parse() {
    let (_, outcome) = run_parent(vec![
        ParentEvent::Armed,
        ParentEvent::ReadComplete(b"garbage".to_vec()),
        ParentEvent::Exited(ChildExit::Clean),
        ParentEvent::ParseFailed("expected value at line 1".into()),
    ]);
    assert_eq!(
        outcome,
        Err(HelperError::IpcFailure(
            "failed to parse helper response: expected value at line 1".into()
        ))
    );
}

#[test]
fn parent_passes_the_soft_failure_on() {
    let (_, outcome) = run_parent(vec![
        ParentEvent::Armed,
        ParentEvent::ReadComplete(b"x".to_vec()),
        ParentEvent::Exited(ChildExit::Clean),
        ParentEvent::Parsed(HelperWireMessage::Error {
            kind: HelperWireErrorKind::SecretServiceUnavailable,
            message: "locked".into(),
        }),
    ]);
    assert_eq!(outcome, Err(HelperError::SecretServiceUnavailable("locked".into())));
    let (_, outcome) = run_parent(vec![
        ParentEvent::Armed,
        ParentEvent::ReadComplete(b"x".to_vec()),
        ParentEvent::Exited(ChildExit::Clean),
        ParentEvent::Parsed(HelperWireMessage::Missing { message: "none".into() }),
    ]);
    assert_eq!(outcome, Ok(HelperResponse::Missing { message: "none".into() }));
}

#[test]
fn parent_fails_on_an_event_it_did_not_ask_for() {
    let (state, action) = parent_step(parent_start(), ParentEvent::ReadComplete(vec![1]));
    assert_eq!(action, ParentAction::KillAndReap);
    assert!(matches!(state, ParentState::Failing { .. }));
    let (state, action) = parent_step(ParentState::Parsing, ParentEvent::Armed);
    assert_eq!(state, ParentState::Done);
    assert_eq!(
        action,
        ParentAction::Finish(Err(HelperError::IpcFailure(
            "unexpected event in Secret Service helper".into()
        )))
    );
    let (state, _) = parent_step(ParentState::Done, ParentEvent::Armed);
    assert_eq!(state, ParentState::Done);
}
