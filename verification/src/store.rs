//! The per-user embedding store as it lies on disk: where it is kept, and the
//! envelope that a store encrypted with AES-256-GCM is wrapped in.
//!
//! Reading and writing files, and turning JSON text into records, is the
//! caller's part. This module decides what an envelope opens to and what a
//! payload is sealed into.
use crate::codec::{
    aes256_gcm_open, aes256_gcm_opening, aes256_gcm_seal, aes256_gcm_sealing, base64_decode,
    base64_encode, base64_standard_decoding, base64_standard_encoding, is_base64_char,
    is_base64_text, random_bytes, AES_GCM_KEY_BYTES, AES_GCM_MAX_PLAINTEXT, AES_GCM_TAG_BYTES,
};
use crate::errors::AppError;
use crate::extractor::BoundingBox;
use crate::scalar::Scalar;
use crate::text::{
    decimal, decimal_digits, join_path, joined_path, lemma_trimmed_is_identity, str_eq, trim,
    trimmed,
};
use vstd::prelude::*;
use vstd::string::StringExecFns;

verus! {

/// Where stores are kept unless configured otherwise.
pub const DEFAULT_STORE_DIR: &'static str = "/var/lib/chissu-pam/models";

/// The environment variable that overrides the default directory.
pub const FEATURE_STORE_ENV: &'static str = "CHISSU_PAM_STORE_DIR";

/// The only envelope version there is.
pub const STORE_VERSION: u32 = 1;

/// The only algorithm an envelope may name.
pub const STORE_ALGORITHM: &'static str = "AES-256-GCM";

/// Bytes of an envelope's nonce.
pub const STORE_NONCE_LEN: usize = 12;

/// One enrolled face of a user.
#[derive(Debug, Clone, PartialEq, Eq)]
pub struct EnrolledEmbedding {
    pub id: String,
    pub embedding: Vec<Scalar>,
    pub bounding_box: BoundingBox,
    pub source: String,
    pub created_at: String,
}

/// The envelope around an encrypted store.
#[derive(Debug, Clone, PartialEq, Eq)]
pub struct EncryptedEmbeddingStore {
    pub version: u32,
    pub algorithm: String,
    /// The nonce, base64.
    pub nonce: String,
    /// Ciphertext and tag, base64.
    pub ciphertext: String,
}

/// Something that keeps stores: loads the records at a path, saves records
/// to a path, and deletes what is at a path.
pub trait FaceStore {
    fn load(&self, path: &str, key: Option<&[u8]>) -> Result<Vec<EnrolledEmbedding>, AppError>;

    fn save(&self, path: &str, embeddings: &Vec<EnrolledEmbedding>, key: Option<&[u8]>) -> Result<
        (),
        AppError,
    >;

    fn delete(&self, path: &str) -> Result<(), AppError>;
}

/// Something that names the directory stores are kept in.
pub trait StoreDirResolver {
    fn resolve(&self, override_dir: Option<&str>) -> String;
}

/// The directory of the stores: the override if there is one, else the value
/// of the environment variable if it is set, else the default.
pub open spec fn store_dir(override_dir: Option<Seq<char>>, env_dir: Option<Seq<char>>) -> Seq<
    char,
> {
    match override_dir {
        Some(dir) => dir,
        None => match env_dir {
            Some(dir) => dir,
            None => DEFAULT_STORE_DIR@,
        },
    }
}

/// The view of an optional text.
pub open spec fn text_of(text: Option<&str>) -> Option<Seq<char>> {
    match text {
        Some(s) => Some(s@),
        None => None,
    }
}

/// The view of optional bytes.
pub open spec fn bytes_of(bytes: Option<&[u8]>) -> Option<Seq<u8>> {
    match bytes {
        Some(b) => Some(b@),
        None => None,
    }
}

/// Picks the directory of the stores.
pub fn effective_store_dir(override_dir: Option<&str>, env_dir: Option<&str>) -> (dir: String)
    ensures
        dir@ == store_dir(text_of(override_dir), text_of(env_dir)),
{
    match override_dir {
        Some(dir) => dir.to_owned(),
        None => match env_dir {
            Some(dir) => dir.to_owned(),
            None => DEFAULT_STORE_DIR.to_owned(),
        },
    }
}

/// The file name of `user`'s store.
pub open spec fn store_file_name(user: Seq<char>) -> Seq<char> {
    user + ".json"@
}

/// The path of `user`'s store: `{directory}/{user}.json`. The name is not
/// examined here; see [`crate::enrollment::validate_user_name`].
pub fn user_store_path(store_dir: Option<&str>, env_dir: Option<&str>, user: &str) -> (path: String)
    ensures
        path@ == joined_path(
            self::store_dir(text_of(store_dir), text_of(env_dir)),
            store_file_name(user@),
        ),
{
    let dir = effective_store_dir(store_dir, env_dir);
    let mut name = user.to_owned();
    name.append(".json");
    join_path(dir.as_str(), name.as_str())
}

/// Why an envelope does not open.
#[derive(Debug, Clone, PartialEq, Eq)]
pub enum EnvelopeError {
    /// The envelope names another algorithm than AES-256-GCM.
    AlgorithmMismatch { algorithm: String },
    /// The envelope has another version than 1.
    VersionMismatch { version: u32 },
    /// No key was supplied.
    RequiresKey,
    /// The nonce is not base64; the decoder's words follow.
    NonceEncoding { cause: String },
    /// The nonce has so many bytes, not 12.
    NonceLength { length: usize },
    /// The ciphertext is not base64; the decoder's words follow.
    CiphertextEncoding { cause: String },
    /// The key is not 32 bytes long.
    KeyLength,
    /// The ciphertext is not authentic under this key and nonce; the
    /// cipher's words follow.
    Decryption { cause: String },
}

/// [`EnvelopeError`] over mathematical text.
pub enum EnvelopeFault {
    AlgorithmMismatch { algorithm: Seq<char> },
    VersionMismatch { version: u32 },
    RequiresKey,
    NonceEncoding { cause: Seq<char> },
    NonceLength { length: nat },
    CiphertextEncoding { cause: Seq<char> },
    KeyLength,
    Decryption { cause: Seq<char> },
}

impl View for EnvelopeError {
    type V = EnvelopeFault;

    open spec fn view(&self) -> EnvelopeFault {
        match self {
            EnvelopeError::AlgorithmMismatch { algorithm } => EnvelopeFault::AlgorithmMismatch {
                algorithm: algorithm@,
            },
            EnvelopeError::VersionMismatch { version } => EnvelopeFault::VersionMismatch {
                version: *version,
            },
            EnvelopeError::RequiresKey => EnvelopeFault::RequiresKey,
            EnvelopeError::NonceEncoding { cause } => EnvelopeFault::NonceEncoding {
                cause: cause@,
            },
            EnvelopeError::NonceLength { length } => EnvelopeFault::NonceLength {
                length: *length as nat,
            },
            EnvelopeError::CiphertextEncoding { cause } => EnvelopeFault::CiphertextEncoding {
                cause: cause@,
            },
            EnvelopeError::KeyLength => EnvelopeFault::KeyLength,
            EnvelopeError::Decryption { cause } => EnvelopeFault::Decryption { cause: cause@ },
        }
    }
}

/// An envelope over mathematical text.
pub struct Envelope {
    pub version: u32,
    pub algorithm: Seq<char>,
    pub nonce: Seq<char>,
    pub ciphertext: Seq<char>,
}

impl View for EncryptedEmbeddingStore {
    type V = Envelope;

    open spec fn view(&self) -> Envelope {
        Envelope {
            version: self.version,
            algorithm: self.algorithm@,
            nonce: self.nonce@,
            ciphertext: self.ciphertext@,
        }
    }
}

/// What an envelope opens to under a key, or why it does not open. The
/// checks come in this order: algorithm, version, presence of a key, the
/// nonce's encoding and length, the ciphertext's encoding, the key's length,
/// and last the authenticated decryption itself.
pub open spec fn opened_envelope(envelope: Envelope, key: Option<Seq<u8>>) -> Result<
    Seq<u8>,
    EnvelopeFault,
> {
    if envelope.algorithm != STORE_ALGORITHM@ {
        Err(EnvelopeFault::AlgorithmMismatch { algorithm: envelope.algorithm })
    } else if envelope.version != STORE_VERSION {
        Err(EnvelopeFault::VersionMismatch { version: envelope.version })
    } else {
        match key {
            None => Err(EnvelopeFault::RequiresKey),
            Some(key) => match base64_standard_decoding(trimmed(envelope.nonce)) {
                Err(cause) => Err(EnvelopeFault::NonceEncoding { cause }),
                Ok(nonce) => if nonce.len() != STORE_NONCE_LEN {
                    Err(EnvelopeFault::NonceLength { length: nonce.len() })
                } else {
                    match base64_standard_decoding(trimmed(envelope.ciphertext)) {
                        Err(cause) => Err(EnvelopeFault::CiphertextEncoding { cause }),
                        Ok(sealed) => if key.len() != AES_GCM_KEY_BYTES {
                            Err(EnvelopeFault::KeyLength)
                        } else {
                            match aes256_gcm_opening(key, nonce, sealed) {
                                Err(cause) => Err(EnvelopeFault::Decryption { cause }),
                                Ok(plaintext) => Ok(plaintext),
                            }
                        },
                    }
                },
            },
        }
    }
}

/// Whether `opened` is the plaintext or the error that `expected` calls for.
pub open spec fn opens_as(
    opened: Result<Vec<u8>, EnvelopeError>,
    expected: Result<Seq<u8>, EnvelopeFault>,
) -> bool {
    match expected {
        Ok(plaintext) => opened matches Ok(bytes) && bytes@ == plaintext,
        Err(fault) => opened matches Err(err) && err@ == fault,
    }
}

/// Opens an envelope: checks its algorithm and version, insists on a key,
/// decodes nonce and ciphertext and decrypts. Either the whole plaintext
/// comes back or an error; never a part of it.
pub fn open_envelope(envelope: &EncryptedEmbeddingStore, key: Option<&[u8]>) -> (opened: Result<
    Vec<u8>,
    EnvelopeError,
>)
    ensures
        opens_as(opened, opened_envelope(envelope@, bytes_of(key))),
{
    if !str_eq(envelope.algorithm.as_str(), STORE_ALGORITHM) {
        return Err(EnvelopeError::AlgorithmMismatch { algorithm: envelope.algorithm.clone() });
    }
    if envelope.version != STORE_VERSION {
        return Err(EnvelopeError::VersionMismatch { version: envelope.version });
    }
    let key_bytes = match key {
        None => {
            return Err(EnvelopeError::RequiresKey);
        },
        Some(bytes) => bytes,
    };
    let nonce_text = trim(envelope.nonce.as_str());
    let nonce = match base64_decode(nonce_text.as_str()) {
        Err(cause) => {
            return Err(EnvelopeError::NonceEncoding { cause });
        },
        Ok(bytes) => bytes,
    };
    if nonce.len() != STORE_NONCE_LEN {
        return Err(EnvelopeError::NonceLength { length: nonce.len() });
    }
    let sealed_text = trim(envelope.ciphertext.as_str());
    let sealed = match base64_decode(sealed_text.as_str()) {
        Err(cause) => {
            return Err(EnvelopeError::CiphertextEncoding { cause });
        },
        Ok(bytes) => bytes,
    };
    if key_bytes.len() != AES_GCM_KEY_BYTES {
        return Err(EnvelopeError::KeyLength);
    }
    match aes256_gcm_open(key_bytes, nonce.as_slice(), sealed.as_slice()) {
        Err(cause) => Err(EnvelopeError::Decryption { cause }),
        Ok(plaintext) => Ok(plaintext),
    }
}

/// The message under which an envelope error is reported as an encryption
/// error; a missing key has a report of its own.
pub open spec fn fault_message(fault: EnvelopeFault) -> Seq<char> {
    match fault {
        EnvelopeFault::AlgorithmMismatch { algorithm } =>
            "unsupported embedding store algorithm '"@ + algorithm + "'"@,
        EnvelopeFault::VersionMismatch { version } => "unsupported embedding store version "@
            + decimal_digits(version as nat),
        EnvelopeFault::RequiresKey => Seq::<char>::empty(),
        EnvelopeFault::NonceEncoding { cause } => "invalid nonce encoding: "@ + cause,
        EnvelopeFault::NonceLength { length } => "expected nonce of 12 bytes but found "@
            + decimal_digits(length),
        EnvelopeFault::CiphertextEncoding { cause } => "invalid ciphertext encoding: "@ + cause,
        EnvelopeFault::KeyLength => "invalid AES-GCM key length"@,
        EnvelopeFault::Decryption { cause } => "failed to decrypt embedding store: "@ + cause,
    }
}

/// Whether `err` reports `fault` for the store at `path`.
pub open spec fn reports_fault(err: AppError, path: Seq<char>, fault: EnvelopeFault) -> bool {
    match fault {
        EnvelopeFault::RequiresKey => err matches AppError::EncryptedStoreRequiresKey { path: at }
            && at@ == path,
        _ => err matches AppError::Encryption(message) && message@ == fault_message(fault),
    }
}

impl EnvelopeError {
    /// This error as the store at `path` reports it.
    pub fn into_app_error(self, path: &str) -> (err: AppError)
        ensures
            reports_fault(err, path@, self@),
    {
        match self {
            EnvelopeError::AlgorithmMismatch { algorithm } => {
                let mut m = "unsupported embedding store algorithm '".to_owned();
                m.append(algorithm.as_str());
                m.append("'");
                AppError::Encryption(m)
            },
            EnvelopeError::VersionMismatch { version } => {
                let mut m = "unsupported embedding store version ".to_owned();
                let n = decimal(version as u64);
                m.append(n.as_str());
                AppError::Encryption(m)
            },
            EnvelopeError::RequiresKey => AppError::EncryptedStoreRequiresKey {
                path: path.to_owned(),
            },
            EnvelopeError::NonceEncoding { cause } => {
                let mut m = "invalid nonce encoding: ".to_owned();
                m.append(cause.as_str());
                AppError::Encryption(m)
            },
            EnvelopeError::NonceLength { length } => {
                let mut m = "expected nonce of 12 bytes but found ".to_owned();
                let n = decimal(length as u64);
                m.append(n.as_str());
                AppError::Encryption(m)
            },
            EnvelopeError::CiphertextEncoding { cause } => {
                let mut m = "invalid ciphertext encoding: ".to_owned();
                m.append(cause.as_str());
                AppError::Encryption(m)
            },
            EnvelopeError::KeyLength => AppError::Encryption(
                "invalid AES-GCM key length".to_owned(),
            ),
            EnvelopeError::Decryption { cause } => {
                let mut m = "failed to decrypt embedding store: ".to_owned();
                m.append(cause.as_str());
                AppError::Encryption(m)
            },
        }
    }
}

/// Whether `opened` is the plaintext, or the report for the store at `path`,
/// that `expected` calls for.
pub open spec fn decrypts_as(
    opened: Result<Vec<u8>, AppError>,
    path: Seq<char>,
    expected: Result<Seq<u8>, EnvelopeFault>,
) -> bool {
    match expected {
        Ok(plaintext) => opened matches Ok(bytes) && bytes@ == plaintext,
        Err(fault) => opened matches Err(err) && reports_fault(err, path, fault),
    }
}

/// Decrypts the envelope read from `path`: the serialized records come back,
/// or the error to report.
pub fn decrypt_encrypted_store(
    path: &str,
    wrapper: &EncryptedEmbeddingStore,
    key: Option<&[u8]>,
) -> (opened: Result<Vec<u8>, AppError>)
    ensures
        decrypts_as(opened, path@, opened_envelope(wrapper@, bytes_of(key))),
{
    match open_envelope(wrapper, key) {
        Ok(plaintext) => Ok(plaintext),
        Err(err) => Err(err.into_app_error(path)),
    }
}

/// Why a payload is not sealed.
pub enum SealFault {
    /// The key is not 32 bytes long.
    KeyLength,
    /// The cipher refused; its words follow.
    Encryption { cause: Seq<char> },
}

/// The envelope that `plaintext` is sealed into under `key` with `nonce`.
pub open spec fn sealed_envelope(plaintext: Seq<u8>, key: Seq<u8>, nonce: Seq<u8>) -> Result<
    Envelope,
    SealFault,
> {
    if key.len() != AES_GCM_KEY_BYTES {
        Err(SealFault::KeyLength)
    } else {
        match aes256_gcm_sealing(key, nonce, plaintext) {
            Err(cause) => Err(SealFault::Encryption { cause }),
            Ok(sealed) => Ok(
                Envelope {
                    version: STORE_VERSION,
                    algorithm: STORE_ALGORITHM@,
                    nonce: base64_standard_encoding(nonce),
                    ciphertext: base64_standard_encoding(sealed),
                },
            ),
        }
    }
}

/// The message under which a sealing fault is reported.
pub open spec fn seal_fault_message(fault: SealFault) -> Seq<char> {
    match fault {
        SealFault::KeyLength => "invalid AES-GCM key length"@,
        SealFault::Encryption { cause } => "failed to encrypt embedding store: "@ + cause,
    }
}

/// Whether `sealed` is the envelope, or the encryption error, that `expected`
/// calls for.
pub open spec fn seals_as(
    sealed: Result<EncryptedEmbeddingStore, AppError>,
    expected: Result<Envelope, SealFault>,
) -> bool {
    match expected {
        Ok(envelope) => sealed matches Ok(store) && store@ == envelope,
        Err(fault) => sealed matches Err(AppError::Encryption(message)) && message@
            == seal_fault_message(fault),
    }
}

/// Base64 text is its own trimmed form.
pub proof fn lemma_base64_text_is_trimmed(text: Seq<char>)
    requires
        is_base64_text(text),
    ensures
        trimmed(text) == text,
{
    if text.len() > 0 {
        assert(is_base64_char(text[0]));
        assert(is_base64_char(text.last()));
    }
    lemma_trimmed_is_identity(text);
}

/// Whether the store document that holds `envelope` is read under `key` as
/// these bytes, decrypted.
pub open spec fn reads_back_as(
    envelope: EncryptedEmbeddingStore,
    key: Seq<u8>,
    plaintext: Seq<u8>,
) -> bool {
    store_payload(StoreDocument::Encrypted(envelope), Some(key)) == Ok::<Payload, EnvelopeFault>(
        Payload::Decrypted(plaintext),
    )
}

/// Seals `plaintext` under `key` with the nonce given. The envelope that
/// comes back opens under the same key to the same plaintext, and a store
/// document that holds it is read under that key as the same bytes.
pub fn seal_with_nonce(plaintext: &[u8], key: &[u8], nonce: &[u8]) -> (sealed: Result<
    EncryptedEmbeddingStore,
    AppError,
>)
    requires
        nonce@.len() == STORE_NONCE_LEN,
        plaintext@.len() + AES_GCM_TAG_BYTES <= usize::MAX / 4,
    ensures
        seals_as(sealed, sealed_envelope(plaintext@, key@, nonce@)),
        key@.len() == AES_GCM_KEY_BYTES && plaintext@.len() <= AES_GCM_MAX_PLAINTEXT
            ==> sealed is Ok,
        sealed matches Ok(store) ==> opened_envelope(store@, Some(key@)) == Ok::<
            Seq<u8>,
            EnvelopeFault,
        >(plaintext@),
        sealed matches Ok(store) ==> reads_back_as(store, key@, plaintext@),
{
    if key.len() != AES_GCM_KEY_BYTES {
        return Err(AppError::Encryption("invalid AES-GCM key length".to_owned()));
    }
    let ciphertext = match aes256_gcm_seal(key, nonce, plaintext) {
        Err(cause) => {
            let mut m = "failed to encrypt embedding store: ".to_owned();
            m.append(cause.as_str());
            return Err(AppError::Encryption(m));
        },
        Ok(bytes) => bytes,
    };
    let nonce_text = base64_encode(nonce);
    let ciphertext_text = base64_encode(ciphertext.as_slice());
    proof {
        lemma_base64_text_is_trimmed(nonce_text@);
        lemma_base64_text_is_trimmed(ciphertext_text@);
    }
    Ok(
        EncryptedEmbeddingStore {
            version: STORE_VERSION,
            algorithm: STORE_ALGORITHM.to_owned(),
            nonce: nonce_text,
            ciphertext: ciphertext_text,
        },
    )
}

/// Seals the serialized records under `key` with a nonce drawn afresh from
/// the operating system. Under a key of 32 bytes every plaintext that the
/// cipher takes is sealed, and whatever nonce was drawn, the envelope opens
/// under the same key to the same plaintext: a store document that holds it
/// is read under that key as the same bytes.
pub fn serialize_encrypted_store(plaintext: &[u8], key: &[u8]) -> (sealed: Result<
    EncryptedEmbeddingStore,
    AppError,
>)
    requires
        plaintext@.len() + AES_GCM_TAG_BYTES <= usize::MAX / 4,
    ensures
        exists|nonce: Seq<u8>|
            nonce.len() == STORE_NONCE_LEN && seals_as(
                sealed,
                #[trigger] sealed_envelope(plaintext@, key@, nonce),
            ),
        key@.len() == AES_GCM_KEY_BYTES && plaintext@.len() <= AES_GCM_MAX_PLAINTEXT
            ==> sealed is Ok,
        key@.len() != AES_GCM_KEY_BYTES ==> sealed is Err,
        sealed matches Ok(store) ==> opened_envelope(store@, Some(key@)) == Ok::<
            Seq<u8>,
            EnvelopeFault,
        >(plaintext@),
        sealed matches Ok(store) ==> reads_back_as(store, key@, plaintext@),
{
    let nonce = random_bytes(STORE_NONCE_LEN);
    let sealed = seal_with_nonce(plaintext, key, nonce.as_slice());
    proof {
        let witness = nonce@;
        assert(witness.len() == STORE_NONCE_LEN && seals_as(
            sealed,
            sealed_envelope(plaintext@, key@, witness),
        ));
    }
    sealed
}

/// An envelope never opens without a key: whatever it holds, an error comes
/// back, and for an envelope of the supported algorithm and version that
/// error is `RequiresKey`.
pub proof fn lemma_no_plaintext_without_key(envelope: Envelope)
    ensures
        opened_envelope(envelope, None) is Err,
        envelope.algorithm == STORE_ALGORITHM@ && envelope.version == STORE_VERSION
            ==> opened_envelope(envelope, None) == Err::<Seq<u8>, EnvelopeFault>(
            EnvelopeFault::RequiresKey,
        ),
{
}

/// An envelope of another algorithm or version is rejected whatever key is
/// offered, and before the key is looked at.
pub proof fn lemma_mismatch_is_rejected(envelope: Envelope, key: Option<Seq<u8>>)
    ensures
        envelope.algorithm != STORE_ALGORITHM@ ==> opened_envelope(envelope, key) == Err::<
            Seq<u8>,
            EnvelopeFault,
        >(EnvelopeFault::AlgorithmMismatch { algorithm: envelope.algorithm }),
        envelope.algorithm == STORE_ALGORITHM@ && envelope.version != STORE_VERSION
            ==> opened_envelope(envelope, key) == Err::<Seq<u8>, EnvelopeFault>(
            EnvelopeFault::VersionMismatch { version: envelope.version },
        ),
{
}

/// What the file at a store's path turned out to hold.
#[derive(Debug, Clone, PartialEq, Eq)]
pub enum StoreDocument {
    /// There is no file.
    Missing,
    /// The file has the shape of an envelope.
    Encrypted(EncryptedEmbeddingStore),
    /// The file holds these bytes, which are no envelope.
    Plain(Vec<u8>),
}

/// The serialized records of a store, still to be parsed.
#[derive(Debug, Clone, PartialEq, Eq)]
pub enum StorePayload {
    /// No store exists: the user has no records.
    Empty,
    /// A cleartext store: a JSON array of records.
    Cleartext(Vec<u8>),
    /// What an envelope opened to: a JSON array of records.
    Decrypted(Vec<u8>),
}

/// [`StorePayload`] over mathematical bytes.
pub enum Payload {
    Empty,
    Cleartext(Seq<u8>),
    Decrypted(Seq<u8>),
}

impl View for StorePayload {
    type V = Payload;

    open spec fn view(&self) -> Payload {
        match self {
            StorePayload::Empty => Payload::Empty,
            StorePayload::Cleartext(bytes) => Payload::Cleartext(bytes@),
            StorePayload::Decrypted(bytes) => Payload::Decrypted(bytes@),
        }
    }
}

/// What is to be parsed as `document`'s records, or why there is nothing to
/// parse. A missing file is an empty store; cleartext needs no key; an
/// envelope must open.
pub open spec fn store_payload(document: StoreDocument, key: Option<Seq<u8>>) -> Result<
    Payload,
    EnvelopeFault,
> {
    match document {
        StoreDocument::Missing => Ok(Payload::Empty),
        StoreDocument::Plain(bytes) => Ok(Payload::Cleartext(bytes@)),
        StoreDocument::Encrypted(envelope) => match opened_envelope(envelope@, key) {
            Ok(plaintext) => Ok(Payload::Decrypted(plaintext)),
            Err(fault) => Err(fault),
        },
    }
}

/// Decides what the document found at `path` yields: the bytes to parse as
/// the user's records, or the error to report.
pub fn read_enrolled_store(path: &str, document: StoreDocument, key: Option<&[u8]>) -> (read:
    Result<StorePayload, AppError>)
    ensures
        match store_payload(document, bytes_of(key)) {
            Ok(payload) => read matches Ok(found) && found@ == payload,
            Err(fault) => read matches Err(err) && reports_fault(err, path@, fault),
        },
{
    match document {
        StoreDocument::Missing => Ok(StorePayload::Empty),
        StoreDocument::Plain(bytes) => Ok(StorePayload::Cleartext(bytes)),
        StoreDocument::Encrypted(envelope) => match decrypt_encrypted_store(path, &envelope, key) {
            Ok(plaintext) => Ok(StorePayload::Decrypted(plaintext)),
            Err(err) => Err(err),
        },
    }
}

/// The message for a payload that does not parse as records.
pub open spec fn unparsable_message(payload: Payload, cause: Seq<char>) -> Seq<char> {
    match payload {
        Payload::Decrypted(_) => "invalid decrypted feature store contents: "@ + cause,
        _ => "invalid feature store contents: "@ + cause,
    }
}

/// The error for the store at `path` whose payload did not parse as records;
/// `cause` is what the parser said.
pub fn invalid_store_contents(path: &str, payload: &StorePayload, cause: &str) -> (err: AppError)
    ensures
        err matches AppError::InvalidFeatureFile { path: at, message } && at@ == path@ && message@
            == unparsable_message(payload@, cause@),
{
    let mut message = match payload {
        StorePayload::Decrypted(_) => "invalid decrypted feature store contents: ".to_owned(),
        _ => "invalid feature store contents: ".to_owned(),
    };
    message.append(cause);
    AppError::InvalidFeatureFile { path: path.to_owned(), message }
}

/// What an attempt to delete a store came to.
#[derive(Debug, Clone, PartialEq, Eq)]
pub enum StoreRemoval {
    /// There was no store to delete.
    Missing,
    /// The store was deleted.
    Removed,
    /// The store is there and could not be deleted; the text says why.
    Failed(String),
}

/// Decides what the deletion of the store at `path` comes to. A store that
/// is not there is as good as deleted: deleting succeeds however often it
/// is done.
pub fn delete_outcome(path: &str, removal: StoreRemoval) -> (deleted: Result<(), AppError>)
    ensures
        match removal {
            StoreRemoval::Failed(cause) => deleted matches Err(
                AppError::FeatureWrite { path: at, source },
            ) && at@ == path@ && source == cause,
            _ => deleted is Ok,
        },
{
    match removal {
        StoreRemoval::Failed(cause) => Err(
            AppError::FeatureWrite { path: path.to_owned(), source: cause },
        ),
        _ => Ok(()),
    }
}

/// The permissions a store is left with: its owner may read and write it,
/// nobody else may do anything.
pub const STORE_FILE_MODE: u32 = 0o600;

/// How far the writing of a store has come.
#[derive(Debug, Clone, Copy, PartialEq, Eq, Structural)]
pub enum WriteState {
    /// The directory of the store is being created.
    CreatingDirectory,
    /// A temporary file is being created beside the store.
    CreatingTemporary,
    /// The serialized records are being written to the temporary file.
    Writing,
    /// What was written is being flushed.
    Flushing,
    /// The temporary file is being synced to disk.
    Syncing,
    /// The temporary file is being renamed into the store's place.
    Renaming,
    /// The store's permissions are being restricted.
    Restricting,
    /// The outcome was handed out.
    Done,
}

/// What the caller reports back while a store is written.
#[derive(Debug, Clone, PartialEq, Eq)]
pub enum WriteEvent {
    /// The step asked for succeeded.
    Succeeded,
    /// The step asked for failed; the text says how.
    Failed(String),
}

/// What the caller is to do next while a store is written.
#[derive(Debug, PartialEq, Eq)]
pub enum WriteAction {
    /// Create the directory of the store, with everything above it.
    CreateDirectory,
    /// Create a temporary file in the directory of the store.
    CreateTemporary,
    /// Write the serialized records, and a line feed after them, to the
    /// temporary file.
    Write,
    Flush,
    Sync,
    /// Rename the temporary file to the store's path, replacing what is
    /// there.
    Rename,
    /// Set the permissions of the store to [`STORE_FILE_MODE`].
    Restrict,
    /// Hand out the outcome.
    Finish(Result<(), AppError>),
}

/// What a writing that has ended says of an event that reaches it.
pub const UNEXPECTED_WRITE_EVENT: &'static str = "unexpected event after the store was written";

/// The first step of writing the store: its directory is created where it
/// has one, else the temporary file right away.
pub fn write_start(has_parent: bool) -> (first: (WriteState, WriteAction))
    ensures
        has_parent ==> first.0 == WriteState::CreatingDirectory && first.1 is CreateDirectory,
        !has_parent ==> first.0 == WriteState::CreatingTemporary && first.1 is CreateTemporary,
{
    if has_parent {
        (WriteState::CreatingDirectory, WriteAction::CreateDirectory)
    } else {
        (WriteState::CreatingTemporary, WriteAction::CreateTemporary)
    }
}

/// The state that follows `state` when its step has succeeded.
pub open spec fn write_successor(state: WriteState) -> WriteState {
    match state {
        WriteState::CreatingDirectory => WriteState::CreatingTemporary,
        WriteState::CreatingTemporary => WriteState::Writing,
        WriteState::Writing => WriteState::Flushing,
        WriteState::Flushing => WriteState::Syncing,
        WriteState::Syncing => WriteState::Renaming,
        WriteState::Renaming => WriteState::Restricting,
        WriteState::Restricting => WriteState::Done,
        WriteState::Done => WriteState::Done,
    }
}

/// Whether `action` is the step that `state` waits on.
pub open spec fn is_step_of(action: WriteAction, state: WriteState) -> bool {
    match state {
        WriteState::CreatingDirectory => action is CreateDirectory,
        WriteState::CreatingTemporary => action is CreateTemporary,
        WriteState::Writing => action is Write,
        WriteState::Flushing => action is Flush,
        WriteState::Syncing => action is Sync,
        WriteState::Renaming => action is Rename,
        WriteState::Restricting => action is Restrict,
        WriteState::Done => action matches WriteAction::Finish(Ok(_)),
    }
}

/// Whether the writing of the store at `path`, whose directory is `parent`,
/// moves to `next` and does `action` when `event` reaches it in `state`.
///
/// The steps follow one another in a fixed order, each after the one before
/// it has succeeded: the records reach the store's path only by the rename
/// of a file that was written, flushed and synced in full. The first step
/// that fails ends the writing with a write error, which names the
/// directory where the directory could not be created and the store
/// otherwise. A writing that has ended asked for nothing: whatever reaches
/// it then is answered with a write error, never with success.
pub open spec fn write_moves(
    path: Seq<char>,
    parent: Seq<char>,
    state: WriteState,
    event: WriteEvent,
    next: WriteState,
    action: WriteAction,
) -> bool {
    match (state, event) {
        (WriteState::Done, _) => next == WriteState::Done && (
        action matches WriteAction::Finish(Err(AppError::FeatureWrite { path: at, source }))
            && source@ == UNEXPECTED_WRITE_EVENT@ && at@ == path),
        (_, WriteEvent::Succeeded) => next == write_successor(state) && is_step_of(action, next),
        (_, WriteEvent::Failed(cause)) => next == WriteState::Done && (
        action matches WriteAction::Finish(Err(AppError::FeatureWrite { path: at, source }))
            && source@ == cause@ && at@ == if state == WriteState::CreatingDirectory {
            parent
        } else {
            path
        }),
    }
}

/// One step of writing the store at `path`, whose directory is `parent`.
pub fn write_step(path: &str, parent: &str, state: WriteState, event: WriteEvent) -> (step: (
    WriteState,
    WriteAction,
))
    ensures
        write_moves(path@, parent@, state, event, step.0, step.1),
{
    match state {
        WriteState::Done => (
            WriteState::Done,
            WriteAction::Finish(
                Err(
                    AppError::FeatureWrite {
                        path: path.to_owned(),
                        source: UNEXPECTED_WRITE_EVENT.to_owned(),
                    },
                ),
            ),
        ),
        _ => match event {
            WriteEvent::Failed(cause) => {
                let at = match state {
                    WriteState::CreatingDirectory => parent.to_owned(),
                    _ => path.to_owned(),
                };
                (
                    WriteState::Done,
                    WriteAction::Finish(Err(AppError::FeatureWrite { path: at, source: cause })),
                )
            },
            WriteEvent::Succeeded => match state {
                WriteState::CreatingDirectory => (
                    WriteState::CreatingTemporary,
                    WriteAction::CreateTemporary,
                ),
                WriteState::CreatingTemporary => (WriteState::Writing, WriteAction::Write),
                WriteState::Writing => (WriteState::Flushing, WriteAction::Flush),
                WriteState::Flushing => (WriteState::Syncing, WriteAction::Sync),
                WriteState::Syncing => (WriteState::Renaming, WriteAction::Rename),
                WriteState::Renaming => (WriteState::Restricting, WriteAction::Restrict),
                _ => (WriteState::Done, WriteAction::Finish(Ok(()))),
            },
        },
    }
}

/// How many steps of the writing lie behind a state.
pub open spec fn write_progress(state: WriteState) -> nat {
    match state {
        WriteState::CreatingDirectory => 0,
        WriteState::CreatingTemporary => 1,
        WriteState::Writing => 2,
        WriteState::Flushing => 3,
        WriteState::Syncing => 4,
        WriteState::Renaming => 5,
        WriteState::Restricting => 6,
        WriteState::Done => 7,
    }
}

/// Nothing is renamed into the store's place before it was written, flushed
/// and synced; success is reported only when the permissions have just been
/// restricted, and so at most once: a writing that has ended reports it no
/// more.
pub proof fn lemma_store_is_replaced_whole(
    path: Seq<char>,
    parent: Seq<char>,
    state: WriteState,
    event: WriteEvent,
    next: WriteState,
    action: WriteAction,
)
    requires
        write_moves(path, parent, state, event, next, action),
    ensures
        action is Rename ==> state == WriteState::Syncing && event is Succeeded,
        action is Sync ==> state == WriteState::Flushing && event is Succeeded,
        action is Flush ==> state == WriteState::Writing && event is Succeeded,
        action is Restrict ==> state == WriteState::Renaming && event is Succeeded,
        (action matches WriteAction::Finish(Ok(_))) ==> state == WriteState::Restricting
            && event is Succeeded,
        state == WriteState::Done ==> next == WriteState::Done && (
        action matches WriteAction::Finish(Err(_))),
        event is Succeeded && state != WriteState::Done ==> write_progress(next) == write_progress(
            state,
        ) + 1,
        event is Failed ==> next == WriteState::Done,
{
}

} // verus!
