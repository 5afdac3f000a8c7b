use base64::{engine::general_purpose, Engine as _};
use chissu_pam::errors::AppError;
use chissu_pam::keyring::{check_with_probe, keyring_summary};
use chissu_pam::secret_service::{
    decode_embedding_key, default_service_name, describe_keyring_error, encode_embedding_key,
    ensure_secret_service_available, fetch_embedding_key, generate_embedding_key, probe_outcome,
    store_embedding_key, EmbeddingKey, EmbeddingKeyLookupError, EmbeddingKeyStatus,
    KeyringFailure, KeyringRead, KeyringWrite, SecretServiceError, SecretServiceProbe,
    AES_GCM_KEY_BYTES, DEFAULT_SERVICE_NAME,
};

#[derive(Clone)]
struct StubProbe {
    result: Result<(), SecretServiceError>,
}

impl SecretServiceProbe for StubProbe {
    fn check(&self, _user: &str) -> Result<(), SecretServiceError> {
        self.result.clone()
    }
}

#[test]
fn ensure_secret_service_available_propagates_success() {
    let probe = StubProbe { result: Ok(()) };
    assert!(ensure_secret_service_available(&probe, "alice").is_ok());
}

#[test]
fn ensure_secret_service_available_propagates_failure() {
    let probe = StubProbe {
        result: Err(SecretServiceError::new("alice", DEFAULT_SERVICE_NAME, "locked")),
    };
    let err = ensure_secret_service_available(&probe, "alice").unwrap_err();
    assert!(err.message().contains("locked"));
    assert_eq!(err.user(), "alice");
    assert_eq!(err.service(), DEFAULT_SERVICE_NAME);
}

#[test]
fn decode_embedding_key_accepts_padded_base64() {
    let raw = [0xABu8; AES_GCM_KEY_BYTES];
    let encoded = general_purpose::STANDARD.encode(raw);
    let key = decode_embedding_key("alice", &encoded).unwrap();
    assert_eq!(key.as_bytes(), &raw);
}

#[test]
fn decode_embedding_key_rejects_short_values() {
    let encoded = general_purpose::STANDARD.encode([0xCDu8; 4]);
    let err = decode_embedding_key("bob", &encoded).unwrap_err();
    match err {
        EmbeddingKeyLookupError::InvalidFormat { user, reason } => {
            assert_eq!(user, "bob");
            assert!(reason.contains("expected"));
        }
        other => panic!("unexpected error: {:?}", other),
    }
}

#[test]
fn check_with_probe_returns_summary_on_success() {
    let probe = StubProbe { result: Ok(()) };
    let summary = check_with_probe(&probe, "alice".into()).unwrap();
    assert_eq!(summary.user, "alice");
    assert_eq!(summary.service, default_service_name());
}

#[test]
fn check_with_probe_maps_error_to_app_error() {
    let probe = StubProbe {
        result: Err(SecretServiceError::new("alice", default_service_name(), "locked")),
    };
    let err = check_with_probe(&probe, "alice".into()).unwrap_err();
    match err {
        AppError::SecretServiceUnavailable { user, service, message } => {
            assert_eq!(user, "alice");
            assert_eq!(service, default_service_name());
            assert!(message.contains("locked"));
        }
        other => panic!("unexpected error: {other:?}"),
    }
}

#[test]
fn keyring_summary_follows_the_probe() {
    let summary = keyring_summary("carol".into(), Ok(())).unwrap();
    assert_eq!(summary.user, "carol");
    assert_eq!(summary.service, "chissu-pam");
    let err =
        keyring_summary("carol".into(), Err(SecretServiceError::new("carol", "svc", "down")))
            .unwrap_err();
    assert_eq!(
        err,
        AppError::SecretServiceUnavailable {
            user: "carol".into(),
            service: "svc".into(),
            message: "down".into(),
        }
    );
}

#[test]
fn secret_service_error_shows_user_service_and_message() {
    let err = SecretServiceError::new("alice", "chissu-pam", "locked");
    assert_eq!(
        err.display(),
        "Secret Service unavailable for user 'alice' (service 'chissu-pam'): locked"
    );
    assert_eq!(default_service_name(), "chissu-pam");
}

#[test]
fn key_of_the_wrong_length_is_refused_with_the_length_found() {
    let err = EmbeddingKey::from_bytes(vec![1u8; 31]).unwrap_err();
    match err {
        EmbeddingKeyLookupError::InvalidFormat { user, reason } => {
            assert_eq!(user, "unknown");
            assert_eq!(reason, "expected 32 bytes but found 31");
        }
        other => panic!("unexpected error: {other:?}"),
    }
    let err = EmbeddingKey::from_user_bytes("dave", Vec::new()).unwrap_err();
    match err {
        EmbeddingKeyLookupError::InvalidFormat { user, reason } => {
            assert_eq!(user, "dave");
            assert_eq!(reason, "expected 32 bytes but found 0");
        }
        other => panic!("unexpected error: {other:?}"),
    }
    assert!(EmbeddingKey::from_bytes(vec![1u8; 33]).is_err());
}

#[test]
fn key_of_32_bytes_is_kept_as_it_is() {
    let bytes: Vec<u8> = (0u8..32).collect();
    let key = EmbeddingKey::from_bytes(bytes.clone()).unwrap();
    assert_eq!(key.as_bytes(), bytes.as_slice());
    assert_eq!(key.clone().into_bytes(), bytes);
}

#[test]
fn generated_keys_have_32_bytes_and_differ() {
    let first = generate_embedding_key();
    let second = EmbeddingKey::generate();
    assert_eq!(first.as_bytes().len(), 32);
    assert_eq!(second.as_bytes().len(), 32);
    assert_ne!(first.as_bytes(), second.as_bytes());
    assert_ne!(first.as_bytes(), &[0u8; 32]);
}

#[test]
fn a_key_is_stored_as_padded_base64() {
    let key = EmbeddingKey::from_bytes(vec![0u8; 32]).unwrap();
    assert_eq!(encode_embedding_key(&key), "AAAAAAAAAAAAAAAAAAAAAAAAAAAAAAAAAAAAAAAAAAA=");
    let key = EmbeddingKey::from_bytes((0u8..32).collect()).unwrap();
    assert_eq!(encode_embedding_key(&key), "AAECAwQFBgcICQoLDA0ODxAREhMUFRYXGBkaGxwdHh8=");
}

#[test]
fn a_stored_key_reads_back() {
    let key = generate_embedding_key();
    let secret = encode_embedding_key(&key);
    let padded = format!("  {secret}\n");
    let back = decode_embedding_key("alice", &padded).unwrap();
    assert_eq!(back.as_bytes(), key.as_bytes());
}

#[test]
fn unpadded_secrets_are_tolerated() {
    let raw = [0x5Au8; AES_GCM_KEY_BYTES];
    let encoded = general_purpose::STANDARD_NO_PAD.encode(raw);
    assert!(!encoded.ends_with('='));
    let key = decode_embedding_key("alice", &encoded).unwrap();
    assert_eq!(key.as_bytes(), &raw);
}

#[test]
fn an_empty_secret_is_no_key() {
    for secret in ["", "   ", "\n\t"] {
        match decode_embedding_key("erin", secret).unwrap_err() {
            EmbeddingKeyLookupError::InvalidFormat { user, reason } => {
                assert_eq!(user, "erin");
                assert_eq!(reason, "stored secret was empty");
            }
            other => panic!("unexpected error: {other:?}"),
        }
    }
}

#[test]
fn a_secret_that_is_not_base64_is_no_key() {
    match decode_embedding_key("erin", "not base64!").unwrap_err() {
        EmbeddingKeyLookupError::InvalidFormat { user, reason } => {
            assert_eq!(user, "erin");
            let cause = general_purpose::STANDARD_NO_PAD.decode("not base64!").unwrap_err();
            assert_eq!(reason, format!("base64 decode failed: {cause}"));
        }
        other => panic!("unexpected error: {other:?}"),
    }
}

#[test]
fn keyring_failures_are_described() {
    let cases = vec![
        (
            KeyringFailure::NoStorageAccess("collection is locked".into()),
            "Secret Service locked or unavailable: collection is locked",
        ),
        (
            KeyringFailure::PlatformFailure("dbus gone".into()),
            "Secret Service platform failure: dbus gone",
        ),
        (
            KeyringFailure::TooLong("user".into(), 255),
            "Secret Service attribute 'user' exceeded platform limit 255",
        ),
        (
            KeyringFailure::Invalid("service".into(), "empty".into()),
            "Secret Service attribute service invalid: empty",
        ),
        (
            KeyringFailure::Ambiguous(3),
            "Secret Service returned 3 matching credentials for probe entry",
        ),
        (
            KeyringFailure::BadEncoding,
            "Secret Service returned a non-UTF8 secret for probe entry",
        ),
        (KeyringFailure::NoEntry, "Secret Service reported no entry"),
        (KeyringFailure::Other("strange".into()), "Secret Service error: strange"),
    ];
    for (failure, expected) in cases {
        assert_eq!(describe_keyring_error(&failure), expected);
    }
}

#[test]
fn probe_counts_an_empty_entry_as_available() {
    assert!(probe_outcome("alice", &KeyringRead::Secret("anything".into())).is_ok());
    assert!(probe_outcome("alice", &KeyringRead::Failed(KeyringFailure::NoEntry)).is_ok());
}

#[test]
fn probe_reports_every_other_failure_as_unavailable() {
    let err = probe_outcome(
        "alice",
        &KeyringRead::Failed(KeyringFailure::NoStorageAccess("locked".into())),
    )
    .unwrap_err();
    assert_eq!(err.user(), "alice");
    assert_eq!(err.service(), "chissu-pam");
    assert_eq!(err.message(), "Secret Service locked or unavailable: locked");

    let err = probe_outcome("alice", &KeyringRead::EntryUnavailable("bad name".into()))
        .unwrap_err();
    assert_eq!(err.message(), "failed to create keyring entry: bad name");

    let err =
        probe_outcome("alice", &KeyringRead::Failed(KeyringFailure::BadEncoding)).unwrap_err();
    assert_eq!(err.message(), "Secret Service returned a non-UTF8 secret for probe entry");
}

#[test]
fn fetch_yields_the_key_its_absence_or_the_reason() {
    let raw = [7u8; 32];
    let secret = general_purpose::STANDARD.encode(raw);
    match fetch_embedding_key("alice", &KeyringRead::Secret(secret)).unwrap() {
        EmbeddingKeyStatus::Present(key) => assert_eq!(key.as_bytes(), &raw),
        EmbeddingKeyStatus::Missing => panic!("expected a key"),
    }
    match fetch_embedding_key("alice", &KeyringRead::Failed(KeyringFailure::NoEntry)).unwrap() {
        EmbeddingKeyStatus::Missing => {}
        EmbeddingKeyStatus::Present(_) => panic!("expected no key"),
    }
    match fetch_embedding_key("alice", &KeyringRead::Secret("AAAA".into())).unwrap_err() {
        EmbeddingKeyLookupError::InvalidFormat { user, reason } => {
            assert_eq!(user, "alice");
            assert_eq!(reason, "expected 32 bytes but found 3");
        }
        other => panic!("unexpected error: {other:?}"),
    }
    match fetch_embedding_key(
        "alice",
        &KeyringRead::Failed(KeyringFailure::PlatformFailure("boom".into())),
    )
    .unwrap_err()
    {
        EmbeddingKeyLookupError::SecretService(err) => {
            assert_eq!(err.user(), "alice");
            assert_eq!(err.message(), "Secret Service platform failure: boom");
        }
        other => panic!("unexpected error: {other:?}"),
    }
    match fetch_embedding_key("alice", &KeyringRead::EntryUnavailable("nope".into())).unwrap_err()
    {
        EmbeddingKeyLookupError::SecretService(err) => {
            assert_eq!(err.message(), "failed to create keyring entry: nope");
        }
        other => panic!("unexpected error: {other:?}"),
    }
}

#[test]
fn storing_reports_what_the_service_said() {
    assert!(store_embedding_key("alice", &KeyringWrite::Stored).is_ok());
    let err = store_embedding_key("alice", &KeyringWrite::Failed(KeyringFailure::NoEntry))
        .unwrap_err();
    assert_eq!(err.message(), "Secret Service reported no entry");
    let err =
        store_embedding_key("alice", &KeyringWrite::EntryUnavailable("x".into())).unwrap_err();
    assert_eq!(err.message(), "failed to create keyring entry: x");
    assert_eq!(err.user(), "alice");
    assert_eq!(err.service(), "chissu-pam");
}

#[test]
fn lookup_errors_map_to_application_errors() {
    let err = AppError::from_key_lookup(EmbeddingKeyLookupError::InvalidFormat {
        user: "alice".into(),
        reason: "bad".into(),
    });
    assert_eq!(
        err,
        AppError::SecretServiceKeyInvalid { user: "alice".into(), message: "bad".into() }
    );
    let err = AppError::from_key_lookup(EmbeddingKeyLookupError::SecretService(
        SecretServiceError::new("alice", "svc", "locked"),
    ));
    assert_eq!(
        err,
        AppError::SecretServiceUnavailable {
            user: "alice".into(),
            service: "svc".into(),
            message: "locked".into(),
        }
    );
}
