//! The error type shared by the store, the capture path and the command-line
//! front end, with the process exit status and the message of each error.
use crate::secret_service::{EmbeddingKeyLookupError, SecretServiceError};
use crate::text::{decimal, decimal_digits};
use vstd::prelude::*;
use vstd::string::StringExecFns;

verus! {

/// Everything that can go wrong outside the authentication engine itself.
/// Causes that come from the operating system or a decoder are carried as
/// the text they were reported with.
#[derive(Debug, Clone, PartialEq, Eq)]
pub enum AppError {
    DeviceOpen { device: String, source: String },
    MissingInput { path: String },
    ImageDecode { path: String, source: String },
    Capability(String),
    UnsupportedFormat(String),
    UnsupportedFrameSize { width: u32, height: u32, pixel_format: String },
    Io(String),
    FrameProcessing(String),
    MissingModel { kind: String, flag: String, env: String },
    ModelLoad { path: String, message: String },
    FeatureWrite { path: String, source: String },
    FeatureRead { path: String, source: String },
    InvalidFeatureFile { path: String, message: String },
    EmbeddingValidation { path: String, message: String },
    InvalidUser { user: String, message: String },
    EmbeddingNotFound { user: String, embedding_id: String },
    Serialization(String),
    ConfigRead { path: String, source: String },
    ConfigParse { path: String, message: String },
    SecretServiceUnavailable { user: String, service: String, message: String },
    EncryptedStoreRequiresKey { path: String },
    Encryption(String),
    SecretServiceKeyInvalid { user: String, message: String },
}

/// A result whose error is an [`AppError`].
pub type AppResult<T> = Result<T, AppError>;

impl AppError {
    /// A failure of the secret service as this error type reports it.
    pub fn from_secret_service(err: &SecretServiceError) -> (mapped: AppError)
        ensures
            mapped matches AppError::SecretServiceUnavailable { user, service, message } && user@
                == err.spec_user() && service@ == err.spec_service() && message@
                == err.spec_message(),
    {
        AppError::SecretServiceUnavailable {
            user: err.user().to_owned(),
            service: err.service().to_owned(),
            message: err.message().to_owned(),
        }
    }

    /// A failed key lookup as this error type reports it: an unavailable
    /// service as such, and a stored secret that is no key as an invalid key.
    pub fn from_key_lookup(err: EmbeddingKeyLookupError) -> (mapped: AppError)
        ensures
            match err {
                EmbeddingKeyLookupError::SecretService(inner) =>
                    mapped matches AppError::SecretServiceUnavailable { user, service, message }
                        && user@ == inner.spec_user() && service@ == inner.spec_service()
                        && message@ == inner.spec_message(),
                EmbeddingKeyLookupError::InvalidFormat { user, reason } => mapped == (
                AppError::SecretServiceKeyInvalid { user, message: reason }),
            },
    {
        match err {
            EmbeddingKeyLookupError::SecretService(inner) => AppError::from_secret_service(&inner),
            EmbeddingKeyLookupError::InvalidFormat { user, reason } =>
                AppError::SecretServiceKeyInvalid { user, message: reason },
        }
    }

    /// The exit status a command ends with on this error: 2 for bad input
    /// and configuration, 3 for a device or payload that fails validation,
    /// 4 for something that could not be found or opened, 1 otherwise.
    pub open spec fn spec_exit_code(&self) -> u8 {
        match self {
            AppError::MissingInput { .. } => 2,
            AppError::ImageDecode { .. } => 2,
            AppError::UnsupportedFormat(_) => 2,
            AppError::UnsupportedFrameSize { .. } => 2,
            AppError::Capability(_) => 3,
            AppError::DeviceOpen { .. } => 4,
            AppError::MissingModel { .. } => 2,
            AppError::ModelLoad { .. } => 2,
            AppError::FeatureRead { .. } => 2,
            AppError::InvalidFeatureFile { .. } => 2,
            AppError::EmbeddingValidation { .. } => 3,
            AppError::InvalidUser { .. } => 2,
            AppError::EmbeddingNotFound { .. } => 4,
            AppError::ConfigRead { .. } => 2,
            AppError::ConfigParse { .. } => 2,
            AppError::SecretServiceUnavailable { .. } => 2,
            AppError::EncryptedStoreRequiresKey { .. } => 2,
            AppError::Encryption(_) => 2,
            AppError::SecretServiceKeyInvalid { .. } => 2,
            AppError::Io(_) => 1,
            AppError::FrameProcessing(_) => 1,
            AppError::FeatureWrite { .. } => 1,
            AppError::Serialization(_) => 1,
        }
    }

    /// The exit status a command ends with on this error.
    #[verifier::when_used_as_spec(spec_exit_code)]
    pub fn exit_code(&self) -> (code: u8)
        ensures
            code == self.spec_exit_code(),
            1 <= code <= 4,
    {
        match self {
            AppError::MissingInput { .. } => 2,
            AppError::ImageDecode { .. } => 2,
            AppError::UnsupportedFormat(_) => 2,
            AppError::UnsupportedFrameSize { .. } => 2,
            AppError::Capability(_) => 3,
            AppError::DeviceOpen { .. } => 4,
            AppError::MissingModel { .. } => 2,
            AppError::ModelLoad { .. } => 2,
            AppError::FeatureRead { .. } => 2,
            AppError::InvalidFeatureFile { .. } => 2,
            AppError::EmbeddingValidation { .. } => 3,
            AppError::InvalidUser { .. } => 2,
            AppError::EmbeddingNotFound { .. } => 4,
            AppError::ConfigRead { .. } => 2,
            AppError::ConfigParse { .. } => 2,
            AppError::SecretServiceUnavailable { .. } => 2,
            AppError::EncryptedStoreRequiresKey { .. } => 2,
            AppError::Encryption(_) => 2,
            AppError::SecretServiceKeyInvalid { .. } => 2,
            _ => 1,
        }
    }

    /// The one-line message of this error.
    pub open spec fn message_text(&self) -> Seq<char> {
        match self {
            AppError::DeviceOpen { device, source } => "failed to open video device "@ + device@
                + ": "@ + source@,
            AppError::MissingInput { path } => "input file not found or unreadable: "@ + path@,
            AppError::ImageDecode { path, source } => "failed to decode image "@ + path@ + ": "@
                + source@,
            AppError::Capability(reason) => "device capability error: "@ + reason@,
            AppError::UnsupportedFormat(format) => "unsupported pixel format '"@ + format@
                + "' for selected device"@,
            AppError::UnsupportedFrameSize { width, height, pixel_format } =>
                "requested frame size "@ + decimal_digits(*width as nat) + "x"@ + decimal_digits(
                    *height as nat,
                ) + " unsupported for pixel format "@ + pixel_format@,
            AppError::Io(source) => "I/O error: "@ + source@,
            AppError::FrameProcessing(reason) => "failed processing frame data: "@ + reason@,
            AppError::MissingModel { kind, flag, env } => "missing "@ + kind@ + " model; provide "@
                + flag@ + " or set $"@ + env@,
            AppError::ModelLoad { path, message } => "failed to load model "@ + path@ + ": "@
                + message@,
            AppError::FeatureWrite { path, source } => "failed to write feature output "@ + path@
                + ": "@ + source@,
            AppError::FeatureRead { path, source } => "failed to read feature file "@ + path@
                + ": "@ + source@,
            AppError::InvalidFeatureFile { path, message } => "embedding file "@ + path@
                + " is invalid: "@ + message@,
            AppError::EmbeddingValidation { path, message } => "embedding payload in "@ + path@
                + " failed validation: "@ + message@,
            AppError::InvalidUser { user, message } => "invalid user name '"@ + user@ + "': "@
                + message@,
            AppError::EmbeddingNotFound { user, embedding_id } => "no embedding with id "@
                + embedding_id@ + " found for user "@ + user@,
            AppError::Serialization(source) => "serialization error: "@ + source@,
            AppError::ConfigRead { path, source } => "failed to read configuration file "@ + path@
                + ": "@ + source@,
            AppError::ConfigParse { path, message } => "invalid configuration file "@ + path@
                + ": "@ + message@,
            AppError::SecretServiceUnavailable { user, service, message } =>
                "Secret Service unavailable for user "@ + user@ + " (service "@ + service@
                    + "): "@ + message@,
            AppError::EncryptedStoreRequiresKey { path } => "embedding store "@ + path@
                + " is encrypted and requires a Secret Service key"@,
            AppError::Encryption(reason) => "embedding encryption error: "@ + reason@,
            AppError::SecretServiceKeyInvalid { user, message } =>
                "Secret Service embedding key for user "@ + user@ + " invalid: "@ + message@,
        }
    }

    /// The one-line message of this error.
    pub fn human_message(&self) -> (message: String)
        ensures
            message@ == self.message_text(),
    {
        match self {
            AppError::DeviceOpen { device, source } => {
                let mut m = "failed to open video device ".to_owned();
                m.append(device.as_str());
                m.append(": ");
                m.append(source.as_str());
                m
            },
            AppError::MissingInput { path } => {
                let mut m = "input file not found or unreadable: ".to_owned();
                m.append(path.as_str());
                m
            },
            AppError::ImageDecode { path, source } => {
                let mut m = "failed to decode image ".to_owned();
                m.append(path.as_str());
                m.append(": ");
                m.append(source.as_str());
                m
            },
            AppError::Capability(reason) => {
                let mut m = "device capability error: ".to_owned();
                m.append(reason.as_str());
                m
            },
            AppError::UnsupportedFormat(format) => {
                let mut m = "unsupported pixel format '".to_owned();
                m.append(format.as_str());
                m.append("' for selected device");
                m
            },
            AppError::UnsupportedFrameSize { width, height, pixel_format } => {
                let mut m = "requested frame size ".to_owned();
                let w = decimal(*width as u64);
                m.append(w.as_str());
                m.append("x");
                let h = decimal(*height as u64);
                m.append(h.as_str());
                m.append(" unsupported for pixel format ");
                m.append(pixel_format.as_str());
                m
            },
            AppError::Io(source) => {
                let mut m = "I/O error: ".to_owned();
                m.append(source.as_str());
                m
            },
            AppError::FrameProcessing(reason) => {
                let mut m = "failed processing frame data: ".to_owned();
                m.append(reason.as_str());
                m
            },
            AppError::MissingModel { kind, flag, env } => {
                let mut m = "missing ".to_owned();
                m.append(kind.as_str());
                m.append(" model; provide ");
                m.append(flag.as_str());
                m.append(" or set $");
                m.append(env.as_str());
                m
            },
            AppError::ModelLoad { path, message } => {
                let mut m = "failed to load model ".to_owned();
                m.append(path.as_str());
                m.append(": ");
                m.append(message.as_str());
                m
            },
            AppError::FeatureWrite { path, source } => {
                let mut m = "failed to write feature output ".to_owned();
                m.append(path.as_str());
                m.append(": ");
                m.append(source.as_str());
                m
            },
            AppError::FeatureRead { path, source } => {
                let mut m = "failed to read feature file ".to_owned();
                m.append(path.as_str());
                m.append(": ");
                m.append(source.as_str());
                m
            },
            AppError::InvalidFeatureFile { path, message } => {
                let mut m = "embedding file ".to_owned();
                m.append(path.as_str());
                m.append(" is invalid: ");
                m.append(message.as_str());
                m
            },
            AppError::EmbeddingValidation { path, message } => {
                let mut m = "embedding payload in ".to_owned();
                m.append(path.as_str());
                m.append(" failed validation: ");
                m.append(message.as_str());
                m
            },
            AppError::InvalidUser { user, message } => {
                let mut m = "invalid user name '".to_owned();
                m.append(user.as_str());
                m.append("': ");
                m.append(message.as_str());
                m
            },
            AppError::EmbeddingNotFound { user, embedding_id } => {
                let mut m = "no embedding with id ".to_owned();
                m.append(embedding_id.as_str());
                m.append(" found for user ");
                m.append(user.as_str());
                m
            },
            AppError::Serialization(source) => {
                let mut m = "serialization error: ".to_owned();
                m.append(source.as_str());
                m
            },
            AppError::ConfigRead { path, source } => {
                let mut m = "failed to read configuration file ".to_owned();
                m.append(path.as_str());
                m.append(": ");
                m.append(source.as_str());
                m
            },
            AppError::ConfigParse { path, message } => {
                let mut m = "invalid configuration file ".to_owned();
                m.append(path.as_str());
                m.append(": ");
                m.append(message.as_str());
                m
            },
            AppError::SecretServiceUnavailable { user, service, message } => {
                let mut m = "Secret Service unavailable for user ".to_owned();
                m.append(user.as_str());
                m.append(" (service ");
                m.append(service.as_str());
                m.append("): ");
                m.append(message.as_str());
                m
            },
            AppError::EncryptedStoreRequiresKey { path } => {
                let mut m = "embedding store ".to_owned();
                m.append(path.as_str());
                m.append(" is encrypted and requires a Secret Service key");
                m
            },
            AppError::Encryption(reason) => {
                let mut m = "embedding encryption error: ".to_owned();
                m.append(reason.as_str());
                m
            },
            AppError::SecretServiceKeyInvalid { user, message } => {
                let mut m = "Secret Service embedding key for user ".to_owned();
                m.append(user.as_str());
                m.append(" invalid: ");
                m.append(message.as_str());
                m
            },
        }
    }
}

} // verus!
