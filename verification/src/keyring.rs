//! The check that the secret service answers for a user.
use crate::errors::AppError;
use crate::secret_service::{
    default_service_name, ensure_secret_service_available, SecretServiceError,
    SecretServiceProbe, DEFAULT_SERVICE_NAME,
};
use vstd::prelude::*;

verus! {

/// For whom the secret service answers, and under which service name.
#[derive(Debug, Clone, PartialEq, Eq)]
pub struct KeyringCheckSummary {
    pub user: String,
    pub service: String,
}

/// Whether `summary` is what the answer `checked` of a probe means for
/// `user`: a summary for this user and the default service where the service
/// is available, the error of an unavailable service, in the probe's words,
/// otherwise.
pub open spec fn is_keyring_summary(
    summary: Result<KeyringCheckSummary, AppError>,
    user: Seq<char>,
    checked: Result<(), SecretServiceError>,
) -> bool {
    match checked {
        Ok(_) => summary matches Ok(found) && found.user@ == user && found.service@
            == DEFAULT_SERVICE_NAME@,
        Err(err) => summary matches Err(
            AppError::SecretServiceUnavailable { user: named, service, message },
        ) && named@ == err.spec_user() && service@ == err.spec_service() && message@
            == err.spec_message(),
    }
}

/// What the answer of a probe means for `user`: a summary where the service
/// is available, the error of an unavailable service otherwise.
pub fn keyring_summary(user: String, checked: Result<(), SecretServiceError>) -> (summary: Result<
    KeyringCheckSummary,
    AppError,
>)
    ensures
        is_keyring_summary(summary, user@, checked),
        summary matches Ok(found) ==> found.user == user,
{
    match checked {
        Ok(_) => Ok(KeyringCheckSummary { user, service: default_service_name().to_owned() }),
        Err(err) => Err(AppError::from_secret_service(&err)),
    }
}

/// Asks `probe` whether the secret service answers for `user`. What the
/// probe says is its own affair; what comes back is the meaning of an answer
/// that the probe's own check gives for this user.
pub fn check_with_probe<P: SecretServiceProbe>(probe: &P, user: String) -> (summary: Result<
    KeyringCheckSummary,
    AppError,
>)
    ensures
        exists|asked: &str, checked: Result<(), SecretServiceError>|
            asked@ == user@ && #[trigger] call_ensures(P::check, (probe, asked), checked)
                && is_keyring_summary(summary, user@, checked),
        summary matches Ok(found) ==> found.user == user && found.service@
            == DEFAULT_SERVICE_NAME@,
        summary matches Err(err) ==> err is SecretServiceUnavailable,
{
    let checked = ensure_secret_service_available(probe, user.as_str());
    keyring_summary(user, checked)
}

} // verus!
