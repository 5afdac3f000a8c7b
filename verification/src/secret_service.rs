//! The 32-byte key that encrypts a user's embedding store, as it is kept in
//! the operating system's secret service: how a stored secret becomes a key,
//! how a key becomes a secret, and how the service's answers are classified.
//!
//! Talking to the service is the caller's part. The caller reports what the
//! service said as a [`KeyringRead`] or [`KeyringWrite`]; everything decided
//! from that answer is decided here.
use crate::codec::{
    base64_decode, base64_decode_unpadded, base64_decodes_to, base64_encode,
    base64_standard_decoding, base64_standard_encoding, base64_unpadded_decoding, is_base64_text,
    random_bytes,
};
use crate::text::{decimal, decimal_digits, trim, trimmed};
use vstd::prelude::*;
use vstd::slice::slice_to_vec;
use vstd::string::StringExecFns;

verus! {

/// The service name every entry is filed under.
pub const DEFAULT_SERVICE_NAME: &'static str = "chissu-pam";

/// Bytes of an embedding key.
pub const AES_GCM_KEY_BYTES: usize = 32;

/// The secret service could not be used on behalf of a user.
#[derive(Debug, Clone, PartialEq, Eq)]
pub struct SecretServiceError {
    user: String,
    service: String,
    message: String,
}

impl SecretServiceError {
    /// The user on whose behalf the service was asked.
    pub closed spec fn spec_user(&self) -> Seq<char> {
        self.user@
    }

    /// The service name that was asked for.
    pub closed spec fn spec_service(&self) -> Seq<char> {
        self.service@
    }

    /// What went wrong.
    pub closed spec fn spec_message(&self) -> Seq<char> {
        self.message@
    }

    /// The error that the service `service` could not be used for `user`.
    pub fn new(user: &str, service: &str, message: &str) -> (err: SecretServiceError)
        ensures
            err.spec_user() == user@,
            err.spec_service() == service@,
            err.spec_message() == message@,
    {
        SecretServiceError {
            user: user.to_owned(),
            service: service.to_owned(),
            message: message.to_owned(),
        }
    }

    /// The user on whose behalf the service was asked.
    pub fn user(&self) -> (user: &str)
        ensures
            user@ == self.spec_user(),
    {
        self.user.as_str()
    }

    /// The service name that was asked for.
    pub fn service(&self) -> (service: &str)
        ensures
            service@ == self.spec_service(),
    {
        self.service.as_str()
    }

    /// What went wrong.
    pub fn message(&self) -> (message: &str)
        ensures
            message@ == self.spec_message(),
    {
        self.message.as_str()
    }

    /// The one-line message of this error.
    pub open spec fn display_text(&self) -> Seq<char> {
        "Secret Service unavailable for user '"@ + self.spec_user() + "' (service '"@
            + self.spec_service() + "'): "@ + self.spec_message()
    }

    /// The one-line message of this error.
    pub fn display(&self) -> (text: String)
        ensures
            text@ == self.display_text(),
    {
        let mut m = "Secret Service unavailable for user '".to_owned();
        m.append(self.user.as_str());
        m.append("' (service '");
        m.append(self.service.as_str());
        m.append("'): ");
        m.append(self.message.as_str());
        m
    }
}

/// Something that can tell whether the secret service answers for a user.
pub trait SecretServiceProbe {
    fn check(&self, user: &str) -> Result<(), SecretServiceError>;
}

/// Asks `probe` about `user` and hands its answer on unchanged: the result
/// is one that the probe's own check gives for this user.
pub fn ensure_secret_service_available<P: SecretServiceProbe>(probe: &P, user: &str) -> (checked:
    Result<(), SecretServiceError>)
    ensures
        call_ensures(P::check, (probe, user), checked),
{
    probe.check(user)
}

/// An AES-256-GCM key: exactly 32 bytes.
#[derive(Debug)]
pub struct EmbeddingKey {
    bytes: Vec<u8>,
}

impl Clone for EmbeddingKey {
    fn clone(&self) -> (copy: EmbeddingKey)
        ensures
            copy@ == self@,
    {
        proof {
            use_type_invariant(self);
        }
        EmbeddingKey { bytes: slice_to_vec(self.bytes.as_slice()) }
    }
}

impl View for EmbeddingKey {
    type V = Seq<u8>;

    closed spec fn view(&self) -> Seq<u8> {
        self.bytes@
    }
}

/// Whether the service holds a key for the user.
#[derive(Debug, Clone)]
pub enum EmbeddingKeyStatus {
    Present(EmbeddingKey),
    Missing,
}

/// Why no usable key came back from a lookup.
#[derive(Debug, Clone)]
pub enum EmbeddingKeyLookupError {
    SecretService(SecretServiceError),
    InvalidFormat { user: String, reason: String },
}

/// The reason given for a key of the wrong length.
pub open spec fn wrong_length_reason(len: nat) -> Seq<char> {
    "expected 32 bytes but found "@ + decimal_digits(len)
}

impl EmbeddingKey {
    #[verifier::type_invariant]
    spec fn well_formed(&self) -> bool {
        self.bytes@.len() == AES_GCM_KEY_BYTES
    }

    /// A fresh key from the operating system's random generator.
    pub fn generate() -> (key: EmbeddingKey)
        ensures
            key@.len() == AES_GCM_KEY_BYTES,
    {
        let bytes = random_bytes(AES_GCM_KEY_BYTES);
        EmbeddingKey { bytes }
    }

    /// The key made of `bytes`, which must be 32; the error names the user
    /// `unknown`.
    pub fn from_bytes(bytes: Vec<u8>) -> (made: Result<EmbeddingKey, EmbeddingKeyLookupError>)
        ensures
            bytes@.len() == AES_GCM_KEY_BYTES ==> (made matches Ok(key) && key@ == bytes@),
            bytes@.len() != AES_GCM_KEY_BYTES ==> (made matches Err(
                EmbeddingKeyLookupError::InvalidFormat { user, reason },
            ) && user@ == "unknown"@ && reason@ == wrong_length_reason(bytes@.len())),
    {
        Self::from_user_bytes("unknown", bytes)
    }

    /// The key made of `bytes`, which must be 32; the error names `user`.
    pub fn from_user_bytes(user: &str, bytes: Vec<u8>) -> (made: Result<
        EmbeddingKey,
        EmbeddingKeyLookupError,
    >)
        ensures
            bytes@.len() == AES_GCM_KEY_BYTES ==> (made matches Ok(key) && key@ == bytes@),
            bytes@.len() != AES_GCM_KEY_BYTES ==> (made matches Err(
                EmbeddingKeyLookupError::InvalidFormat { user: named, reason },
            ) && named@ == user@ && reason@ == wrong_length_reason(bytes@.len())),
    {
        if bytes.len() != AES_GCM_KEY_BYTES {
            let mut reason = "expected 32 bytes but found ".to_owned();
            let found = decimal(bytes.len() as u64);
            reason.append(found.as_str());
            return Err(EmbeddingKeyLookupError::InvalidFormat { user: user.to_owned(), reason });
        }
        Ok(EmbeddingKey { bytes })
    }

    /// The 32 bytes of the key.
    pub fn as_bytes(&self) -> (bytes: &[u8])
        ensures
            bytes@ == self@,
            bytes@.len() == AES_GCM_KEY_BYTES,
    {
        proof {
            use_type_invariant(self);
        }
        self.bytes.as_slice()
    }

    /// The 32 bytes of the key.
    pub fn into_bytes(self) -> (bytes: Vec<u8>)
        ensures
            bytes@ == self@,
            bytes@.len() == AES_GCM_KEY_BYTES,
    {
        proof {
            use_type_invariant(&self);
        }
        self.bytes
    }
}

/// A fresh key from the operating system's random generator.
pub fn generate_embedding_key() -> (key: EmbeddingKey)
    ensures
        key@.len() == AES_GCM_KEY_BYTES,
{
    EmbeddingKey::generate()
}

/// The service name every entry is filed under.
pub fn default_service_name() -> (name: &'static str)
    ensures
        name@ == DEFAULT_SERVICE_NAME@,
{
    DEFAULT_SERVICE_NAME
}

/// What a stored secret decodes to: the key's bytes, or the reason it is
/// rejected. Surrounding whitespace is ignored; the text is read as padded
/// base64 and, failing that, as unpadded base64; the result must be 32 bytes.
pub open spec fn decoded_secret(secret: Seq<char>) -> Result<Seq<u8>, Seq<char>> {
    let text = trimmed(secret);
    if text.len() == 0 {
        Err("stored secret was empty"@)
    } else {
        match base64_standard_decoding(text) {
            Ok(bytes) => sized_key(bytes),
            Err(_) => match base64_unpadded_decoding(text) {
                Ok(bytes) => sized_key(bytes),
                Err(cause) => Err("base64 decode failed: "@ + cause),
            },
        }
    }
}

/// `bytes` if they are 32, the reason otherwise.
pub open spec fn sized_key(bytes: Seq<u8>) -> Result<Seq<u8>, Seq<char>> {
    if bytes.len() == AES_GCM_KEY_BYTES {
        Ok(bytes)
    } else {
        Err(wrong_length_reason(bytes.len()))
    }
}

/// Whether `made` is the key, or the format error naming `user`, that
/// `expected` calls for.
pub open spec fn key_matches(
    made: Result<EmbeddingKey, EmbeddingKeyLookupError>,
    user: Seq<char>,
    expected: Result<Seq<u8>, Seq<char>>,
) -> bool {
    match expected {
        Ok(bytes) => made matches Ok(key) && key@ == bytes,
        Err(why) => made matches Err(EmbeddingKeyLookupError::InvalidFormat { user: named, reason })
            && named@ == user && reason@ == why,
    }
}

/// Turns the secret stored for `user` into a key.
pub fn decode_embedding_key(user: &str, secret: &str) -> (made: Result<
    EmbeddingKey,
    EmbeddingKeyLookupError,
>)
    ensures
        key_matches(made, user@, decoded_secret(secret@)),
{
    let text = trim(secret);
    if text.as_str().unicode_len() == 0 {
        return Err(
            EmbeddingKeyLookupError::InvalidFormat {
                user: user.to_owned(),
                reason: "stored secret was empty".to_owned(),
            },
        );
    }
    let decoded = match base64_decode(text.as_str()) {
        Ok(bytes) => bytes,
        Err(_) => match base64_decode_unpadded(text.as_str()) {
            Ok(bytes) => bytes,
            Err(cause) => {
                let mut reason = "base64 decode failed: ".to_owned();
                reason.append(cause.as_str());
                return Err(
                    EmbeddingKeyLookupError::InvalidFormat { user: user.to_owned(), reason },
                );
            },
        },
    };
    EmbeddingKey::from_user_bytes(user, decoded)
}

/// The secret under which `key` is stored: its padded base64 encoding.
pub fn encode_embedding_key(key: &EmbeddingKey) -> (secret: String)
    ensures
        secret@ == base64_standard_encoding(key@),
        base64_decodes_to(secret@, key@),
        is_base64_text(secret@),
{
    base64_encode(key.as_bytes())
}

/// What the secret service reported instead of a secret. Causes that come
/// from the platform are carried as the text they were reported with.
#[derive(Debug, Clone, PartialEq, Eq)]
pub enum KeyringFailure {
    /// The platform's storage failed at run time.
    PlatformFailure(String),
    /// The storage could not be accessed, typically because it is locked.
    NoStorageAccess(String),
    /// Nothing is stored under this entry.
    NoEntry,
    /// What is stored is not text.
    BadEncoding,
    /// An attribute, named first, exceeds the platform's length limit.
    TooLong(String, u32),
    /// An attribute, named first, is invalid for the reason given second.
    Invalid(String, String),
    /// So many credentials match the entry.
    Ambiguous(usize),
    /// A failure of a kind not listed here, as text.
    Other(String),
}

/// One attempt to read a user's entry.
#[derive(Debug, Clone, PartialEq, Eq)]
pub enum KeyringRead {
    /// The entry could not even be addressed; the text says why.
    EntryUnavailable(String),
    /// The secret that is stored.
    Secret(String),
    Failed(KeyringFailure),
}

/// One attempt to overwrite a user's entry.
#[derive(Debug, Clone, PartialEq, Eq)]
pub enum KeyringWrite {
    /// The entry could not even be addressed; the text says why.
    EntryUnavailable(String),
    Stored,
    Failed(KeyringFailure),
}

/// The human-readable reason for a failure of the secret service.
pub open spec fn keyring_failure_text(failure: KeyringFailure) -> Seq<char> {
    match failure {
        KeyringFailure::NoStorageAccess(cause) => "Secret Service locked or unavailable: "@
            + cause@,
        KeyringFailure::PlatformFailure(cause) => "Secret Service platform failure: "@ + cause@,
        KeyringFailure::TooLong(attribute, limit) => "Secret Service attribute '"@ + attribute@
            + "' exceeded platform limit "@ + decimal_digits(limit as nat),
        KeyringFailure::Invalid(attribute, reason) => "Secret Service attribute "@ + attribute@
            + " invalid: "@ + reason@,
        KeyringFailure::Ambiguous(count) => "Secret Service returned "@ + decimal_digits(
            count as nat,
        ) + " matching credentials for probe entry"@,
        KeyringFailure::BadEncoding => "Secret Service returned a non-UTF8 secret for probe entry"@,
        KeyringFailure::NoEntry => "Secret Service reported no entry"@,
        KeyringFailure::Other(text) => "Secret Service error: "@ + text@,
    }
}

/// Renders a failure of the secret service as the reason shown to people.
pub fn describe_keyring_error(failure: &KeyringFailure) -> (text: String)
    ensures
        text@ == keyring_failure_text(*failure),
{
    match failure {
        KeyringFailure::NoStorageAccess(cause) => {
            let mut m = "Secret Service locked or unavailable: ".to_owned();
            m.append(cause.as_str());
            m
        },
        KeyringFailure::PlatformFailure(cause) => {
            let mut m = "Secret Service platform failure: ".to_owned();
            m.append(cause.as_str());
            m
        },
        KeyringFailure::TooLong(attribute, limit) => {
            let mut m = "Secret Service attribute '".to_owned();
            m.append(attribute.as_str());
            m.append("' exceeded platform limit ");
            let n = decimal(*limit as u64);
            m.append(n.as_str());
            m
        },
        KeyringFailure::Invalid(attribute, reason) => {
            let mut m = "Secret Service attribute ".to_owned();
            m.append(attribute.as_str());
            m.append(" invalid: ");
            m.append(reason.as_str());
            m
        },
        KeyringFailure::Ambiguous(count) => {
            let mut m = "Secret Service returned ".to_owned();
            let n = decimal(*count as u64);
            m.append(n.as_str());
            m.append(" matching credentials for probe entry");
            m
        },
        KeyringFailure::BadEncoding => {
            "Secret Service returned a non-UTF8 secret for probe entry".to_owned()
        },
        KeyringFailure::NoEntry => "Secret Service reported no entry".to_owned(),
        KeyringFailure::Other(text) => {
            let mut m = "Secret Service error: ".to_owned();
            m.append(text.as_str());
            m
        },
    }
}

/// The reason given when an entry cannot be addressed.
pub open spec fn entry_unavailable_text(cause: Seq<char>) -> Seq<char> {
    "failed to create keyring entry: "@ + cause
}

fn entry_unavailable(user: &str, cause: &str) -> (err: SecretServiceError)
    ensures
        err.spec_user() == user@,
        err.spec_service() == DEFAULT_SERVICE_NAME@,
        err.spec_message() == entry_unavailable_text(cause@),
{
    let mut m = "failed to create keyring entry: ".to_owned();
    m.append(cause);
    SecretServiceError::new(user, DEFAULT_SERVICE_NAME, m.as_str())
}

fn service_failed(user: &str, failure: &KeyringFailure) -> (err: SecretServiceError)
    ensures
        err.spec_user() == user@,
        err.spec_service() == DEFAULT_SERVICE_NAME@,
        err.spec_message() == keyring_failure_text(*failure),
{
    let m = describe_keyring_error(failure);
    SecretServiceError::new(user, DEFAULT_SERVICE_NAME, m.as_str())
}

/// Whether `err` blames the default service on behalf of `user` with `message`.
pub open spec fn blames(err: SecretServiceError, user: Seq<char>, message: Seq<char>) -> bool {
    err.spec_user() == user && err.spec_service() == DEFAULT_SERVICE_NAME@ && err.spec_message()
        == message
}

/// The message with which a read shows the service to be unavailable, if it
/// does. A stored secret and an empty entry both show the service to be
/// reachable; every other answer makes it unavailable.
pub open spec fn read_unavailability(read: KeyringRead) -> Option<Seq<char>> {
    match read {
        KeyringRead::EntryUnavailable(cause) => Some(entry_unavailable_text(cause@)),
        KeyringRead::Secret(_) => None,
        KeyringRead::Failed(KeyringFailure::NoEntry) => None,
        KeyringRead::Failed(failure) => Some(keyring_failure_text(failure)),
    }
}

/// Classifies a probing read of `user`'s entry: the service is available
/// unless the read failed for another reason than an empty entry.
pub fn probe_outcome(user: &str, read: &KeyringRead) -> (checked: Result<(), SecretServiceError>)
    ensures
        match read_unavailability(*read) {
            None => checked is Ok,
            Some(message) => checked matches Err(err) && blames(err, user@, message),
        },
{
    match read {
        KeyringRead::EntryUnavailable(cause) => Err(entry_unavailable(user, cause.as_str())),
        KeyringRead::Secret(_) => Ok(()),
        KeyringRead::Failed(KeyringFailure::NoEntry) => Ok(()),
        KeyringRead::Failed(failure) => Err(service_failed(user, failure)),
    }
}

/// What a lookup comes to.
pub enum KeyLookup {
    /// The key with these bytes is stored.
    Present(Seq<u8>),
    /// Nothing is stored.
    Missing,
    /// The service is unavailable, with this message.
    Unavailable(Seq<char>),
    /// What is stored is no key, for this reason.
    Invalid(Seq<char>),
}

/// What a read of the user's entry means for the key.
pub open spec fn key_lookup(read: KeyringRead) -> KeyLookup {
    match read {
        KeyringRead::EntryUnavailable(cause) => KeyLookup::Unavailable(
            entry_unavailable_text(cause@),
        ),
        KeyringRead::Secret(secret) => match decoded_secret(secret@) {
            Ok(bytes) => KeyLookup::Present(bytes),
            Err(reason) => KeyLookup::Invalid(reason),
        },
        KeyringRead::Failed(KeyringFailure::NoEntry) => KeyLookup::Missing,
        KeyringRead::Failed(failure) => KeyLookup::Unavailable(keyring_failure_text(failure)),
    }
}

/// Whether `found` reports `lookup` on behalf of `user`.
pub open spec fn reports_lookup(
    found: Result<EmbeddingKeyStatus, EmbeddingKeyLookupError>,
    user: Seq<char>,
    lookup: KeyLookup,
) -> bool {
    match lookup {
        KeyLookup::Present(bytes) => found matches Ok(EmbeddingKeyStatus::Present(key)) && key@
            == bytes,
        KeyLookup::Missing => found matches Ok(EmbeddingKeyStatus::Missing),
        KeyLookup::Unavailable(message) => found matches Err(
            EmbeddingKeyLookupError::SecretService(err),
        ) && blames(err, user, message),
        KeyLookup::Invalid(why) => found matches Err(
            EmbeddingKeyLookupError::InvalidFormat { user: named, reason },
        ) && named@ == user && reason@ == why,
    }
}

/// Decides what a read of `user`'s entry yields: the key, its absence, or the
/// reason no key can be had.
pub fn fetch_embedding_key(user: &str, read: &KeyringRead) -> (found: Result<
    EmbeddingKeyStatus,
    EmbeddingKeyLookupError,
>)
    ensures
        reports_lookup(found, user@, key_lookup(*read)),
{
    match read {
        KeyringRead::EntryUnavailable(cause) => Err(
            EmbeddingKeyLookupError::SecretService(entry_unavailable(user, cause.as_str())),
        ),
        KeyringRead::Secret(secret) => match decode_embedding_key(user, secret.as_str()) {
            Ok(key) => Ok(EmbeddingKeyStatus::Present(key)),
            Err(err) => Err(err),
        },
        KeyringRead::Failed(KeyringFailure::NoEntry) => Ok(EmbeddingKeyStatus::Missing),
        KeyringRead::Failed(failure) => Err(
            EmbeddingKeyLookupError::SecretService(service_failed(user, failure)),
        ),
    }
}

/// The message with which a write fails, if it does.
pub open spec fn write_failure(write: KeyringWrite) -> Option<Seq<char>> {
    match write {
        KeyringWrite::EntryUnavailable(cause) => Some(entry_unavailable_text(cause@)),
        KeyringWrite::Stored => None,
        KeyringWrite::Failed(failure) => Some(keyring_failure_text(failure)),
    }
}

/// Classifies an attempt to store `user`'s key.
pub fn store_embedding_key(user: &str, write: &KeyringWrite) -> (stored: Result<
    (),
    SecretServiceError,
>)
    ensures
        match write_failure(*write) {
            None => stored is Ok,
            Some(message) => stored matches Err(err) && blames(err, user@, message),
        },
{
    match write {
        KeyringWrite::EntryUnavailable(cause) => Err(entry_unavailable(user, cause.as_str())),
        KeyringWrite::Stored => Ok(()),
        KeyringWrite::Failed(failure) => Err(service_failed(user, failure)),
    }
}

/// A key that is stored and read back, with whatever whitespace around the
/// secret, is the same key.
pub proof fn lemma_stored_key_reads_back(key: Seq<u8>, secret: Seq<char>)
    requires
        key.len() == AES_GCM_KEY_BYTES,
        base64_decodes_to(trimmed(secret), key),
        trimmed(secret).len() > 0,
    ensures
        decoded_secret(secret) == Ok::<Seq<u8>, Seq<char>>(key),
{
}

} // verus!
