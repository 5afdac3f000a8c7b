//! The configuration file and what it resolves to.
//!
//! Reading files and parsing TOML is the caller's part; the caller reports
//! what it found. Which file counts, which defaults fill the gaps and how
//! failures are reported is decided here.
use crate::auth::{AuthError, EngineConfig};
use crate::capture::{located, CaptureConfig, DeviceLocator};
use crate::errors::AppError;
use crate::logind::opt_text;
use crate::scalar::Scalar;
use vstd::prelude::*;
use vstd::string::StringExecFns;

verus! {

/// The configuration file that is tried first.
pub const PRIMARY_CONFIG_PATH: &'static str = "/etc/chissu-pam/config.toml";

/// The configuration file that is tried where the first is missing.
pub const SECONDARY_CONFIG_PATH: &'static str = "/usr/local/etc/chissu-pam/config.toml";

/// The encoding of 0.9, the similarity from which on a face matches.
pub const DEFAULT_SIMILARITY_THRESHOLD_BITS: u64 = 0x3FEC_CCCC_CCCC_CCCD;

/// The seconds the camera is polled unless configured otherwise.
pub const DEFAULT_TIMEOUT_SECS: u64 = 5;

/// The milliseconds between two frames unless configured otherwise.
pub const DEFAULT_INTERVAL_MILLIS: u64 = 500;

/// The camera unless configured otherwise.
pub const DEFAULT_VIDEO_DEVICE: &'static str = "/dev/video0";

/// Where stores are kept unless configured otherwise.
pub const DEFAULT_STORE_DIR: &'static str = "/var/lib/chissu-pam/models";

/// The pixel format asked of the camera unless configured otherwise.
pub const DEFAULT_PIXEL_FORMAT: &'static str = "Y16";

/// The frames discarded before a capture unless configured otherwise.
pub const DEFAULT_WARMUP_FRAMES: u32 = 0;

/// The jitters of an extraction unless configured otherwise.
pub const DEFAULT_JITTERS: u32 = 1;

/// Nanoseconds in a second.
pub const NANOS_PER_SECOND: u128 = 1_000_000_000;

/// Nanoseconds in a millisecond.
pub const NANOS_PER_MILLI: u128 = 1_000_000;

/// A length of time, in nanoseconds.
#[derive(Debug, Clone, Copy, PartialEq, Eq, Structural)]
pub struct TimeSpan {
    pub nanos: u128,
}

impl TimeSpan {
    /// So many seconds.
    pub fn from_secs(secs: u64) -> (span: TimeSpan)
        ensures
            span.nanos == secs * NANOS_PER_SECOND,
    {
        assert(secs * NANOS_PER_SECOND <= u128::MAX) by (nonlinear_arith)
            requires
                secs <= u64::MAX,
                NANOS_PER_SECOND == 1_000_000_000,
        ;
        TimeSpan { nanos: secs as u128 * NANOS_PER_SECOND }
    }

    /// So many milliseconds.
    pub fn from_millis(millis: u64) -> (span: TimeSpan)
        ensures
            span.nanos == millis * NANOS_PER_MILLI,
    {
        assert(millis * NANOS_PER_MILLI <= u128::MAX) by (nonlinear_arith)
            requires
                millis <= u64::MAX,
                NANOS_PER_MILLI == 1_000_000,
        ;
        TimeSpan { nanos: millis as u128 * NANOS_PER_MILLI }
    }
}

/// The settings a configuration file may hold; each may be absent.
#[derive(Debug, Clone, PartialEq, Eq)]
pub struct ConfigFile {
    pub similarity_threshold: Option<Scalar>,
    pub capture_timeout_secs: Option<u64>,
    pub frame_interval_millis: Option<u64>,
    pub embedding_store_dir: Option<String>,
    pub video_device: Option<String>,
    pub pixel_format: Option<String>,
    pub warmup_frames: Option<u32>,
    pub jitters: Option<u32>,
    pub landmark_model: Option<String>,
    pub encoder_model: Option<String>,
    pub require_secret_service: Option<bool>,
}

impl Default for ConfigFile {
    fn default() -> (file: ConfigFile)
        ensures
            file.similarity_threshold is None,
            file.capture_timeout_secs is None,
            file.frame_interval_millis is None,
            file.embedding_store_dir is None,
            file.video_device is None,
            file.pixel_format is None,
            file.warmup_frames is None,
            file.jitters is None,
            file.landmark_model is None,
            file.encoder_model is None,
            file.require_secret_service is None,
    {
        ConfigFile {
            similarity_threshold: None,
            capture_timeout_secs: None,
            frame_interval_millis: None,
            embedding_store_dir: None,
            video_device: None,
            pixel_format: None,
            warmup_frames: None,
            jitters: None,
            landmark_model: None,
            encoder_model: None,
            require_secret_service: None,
        }
    }
}

/// The settings in force: those of the file, with defaults in the gaps.
#[derive(Debug, Clone, PartialEq, Eq)]
pub struct ResolvedConfig {
    pub similarity_threshold: Scalar,
    pub capture_timeout: TimeSpan,
    pub frame_interval: TimeSpan,
    pub embedding_store_dir: String,
    pub video_device: String,
    pub pixel_format: String,
    pub warmup_frames: u32,
    pub jitters: u32,
    pub landmark_model: Option<String>,
    pub encoder_model: Option<String>,
    pub require_secret_service: bool,
}

/// The text, or the default where there is none.
pub open spec fn text_or(text: Option<String>, default: Seq<char>) -> Seq<char> {
    match text {
        Some(s) => s@,
        None => default,
    }
}

/// The value, or the default where there is none.
pub open spec fn number_or<T>(number: Option<T>, default: T) -> T {
    match number {
        Some(n) => n,
        None => default,
    }
}

/// Whether `resolved` holds the settings of `raw` with the defaults in its
/// gaps: a threshold of 0.9, five seconds of polling and never less than
/// one, half a second between frames, the first video device in format
/// `Y16`, no warm-up frames, one jitter, no models, and no need for the
/// secret service.
pub open spec fn resolves(raw: ConfigFile, resolved: ResolvedConfig) -> bool {
    &&& resolved.similarity_threshold == number_or(
        raw.similarity_threshold,
        Scalar { bits: DEFAULT_SIMILARITY_THRESHOLD_BITS },
    )
    &&& resolved.capture_timeout.nanos == NANOS_PER_SECOND * if number_or(
        raw.capture_timeout_secs,
        DEFAULT_TIMEOUT_SECS,
    ) < 1 {
        1
    } else {
        number_or(raw.capture_timeout_secs, DEFAULT_TIMEOUT_SECS) as int
    }
    &&& resolved.frame_interval.nanos == NANOS_PER_MILLI * number_or(
        raw.frame_interval_millis,
        DEFAULT_INTERVAL_MILLIS,
    )
    &&& resolved.embedding_store_dir@ == text_or(raw.embedding_store_dir, DEFAULT_STORE_DIR@)
    &&& resolved.video_device@ == text_or(raw.video_device, DEFAULT_VIDEO_DEVICE@)
    &&& resolved.pixel_format@ == text_or(raw.pixel_format, DEFAULT_PIXEL_FORMAT@)
    &&& resolved.warmup_frames == number_or(raw.warmup_frames, DEFAULT_WARMUP_FRAMES)
    &&& resolved.jitters == number_or(raw.jitters, DEFAULT_JITTERS)
    &&& opt_text(resolved.landmark_model) == opt_text(raw.landmark_model)
    &&& opt_text(resolved.encoder_model) == opt_text(raw.encoder_model)
    &&& resolved.require_secret_service == number_or(raw.require_secret_service, false)
}

fn string_or(text: Option<String>, default: &str) -> (out: String)
    ensures
        out@ == text_or(text, default@),
{
    match text {
        Some(s) => s,
        None => default.to_owned(),
    }
}

impl ResolvedConfig {
    /// The settings in force under this file.
    pub fn from_raw(raw: ConfigFile) -> (resolved: ResolvedConfig)
        ensures
            resolves(raw, resolved),
    {
        let secs = match raw.capture_timeout_secs {
            Some(s) => s,
            None => DEFAULT_TIMEOUT_SECS,
        };
        let secs = if secs < 1 {
            1
        } else {
            secs
        };
        let millis = match raw.frame_interval_millis {
            Some(m) => m,
            None => DEFAULT_INTERVAL_MILLIS,
        };
        ResolvedConfig {
            similarity_threshold: match raw.similarity_threshold {
                Some(t) => t,
                None => Scalar::from_bits(DEFAULT_SIMILARITY_THRESHOLD_BITS),
            },
            capture_timeout: TimeSpan::from_secs(secs),
            frame_interval: TimeSpan::from_millis(millis),
            embedding_store_dir: string_or(raw.embedding_store_dir, DEFAULT_STORE_DIR),
            video_device: string_or(raw.video_device, DEFAULT_VIDEO_DEVICE),
            pixel_format: string_or(raw.pixel_format, DEFAULT_PIXEL_FORMAT),
            warmup_frames: match raw.warmup_frames {
                Some(n) => n,
                None => DEFAULT_WARMUP_FRAMES,
            },
            jitters: match raw.jitters {
                Some(n) => n,
                None => DEFAULT_JITTERS,
            },
            landmark_model: raw.landmark_model,
            encoder_model: raw.encoder_model,
            require_secret_service: match raw.require_secret_service {
                Some(b) => b,
                None => false,
            },
        }
    }

    /// What the authentication engine is run with under these settings.
    pub fn engine_config(&self) -> (config: EngineConfig)
        ensures
            config.similarity_threshold == self.similarity_threshold,
            config.capture_timeout_nanos == self.capture_timeout.nanos,
            config.frame_interval_nanos == self.frame_interval.nanos,
            config.require_secret_service == self.require_secret_service,
    {
        EngineConfig {
            similarity_threshold: self.similarity_threshold,
            capture_timeout_nanos: self.capture_timeout.nanos,
            frame_interval_nanos: self.frame_interval.nanos,
            require_secret_service: self.require_secret_service,
        }
    }

    /// The capture the authentication engine asks for under these settings:
    /// the configured device, format and warm-up, and nothing else.
    pub fn capture_config(&self) -> (config: CaptureConfig)
        ensures
            config.device@ == located(Some(self.video_device@)),
            config.pixel_format@ == self.pixel_format@,
            config.warmup_frames == self.warmup_frames,
            config.width is None && config.height is None,
            config.exposure is None && config.gain is None,
            !config.auto_exposure && !config.auto_gain,
            config.output is None,
    {
        CaptureConfig {
            device: DeviceLocator::from_option(Some(self.video_device.clone())),
            pixel_format: self.pixel_format.clone(),
            width: None,
            height: None,
            exposure: None,
            gain: None,
            auto_exposure: false,
            auto_gain: false,
            warmup_frames: self.warmup_frames,
            output: None,
        }
    }
}

impl Default for ResolvedConfig {
    fn default() -> (resolved: ResolvedConfig)
        ensures
            resolved.similarity_threshold.bits == DEFAULT_SIMILARITY_THRESHOLD_BITS,
            resolved.capture_timeout.nanos == DEFAULT_TIMEOUT_SECS * NANOS_PER_SECOND,
            resolved.frame_interval.nanos == DEFAULT_INTERVAL_MILLIS * NANOS_PER_MILLI,
            resolved.embedding_store_dir@ == DEFAULT_STORE_DIR@,
            resolved.video_device@ == DEFAULT_VIDEO_DEVICE@,
            resolved.pixel_format@ == DEFAULT_PIXEL_FORMAT@,
            resolved.warmup_frames == DEFAULT_WARMUP_FRAMES,
            resolved.jitters == DEFAULT_JITTERS,
            resolved.landmark_model is None,
            resolved.encoder_model is None,
            !resolved.require_secret_service,
    {
        ResolvedConfig::from_raw(ConfigFile::default())
    }
}

/// A configuration file that was read and parsed, and where it was found.
#[derive(Debug, Clone, PartialEq, Eq)]
pub struct LoadedConfig {
    pub contents: ConfigFile,
    pub source: String,
}

impl LoadedConfig {
    /// The file with these settings, found at `source`.
    pub fn new(contents: ConfigFile, source: String) -> (loaded: LoadedConfig)
        ensures
            loaded.contents == contents,
            loaded.source == source,
    {
        LoadedConfig { contents, source }
    }

    /// The settings and where they were found.
    pub fn into_parts(self) -> (parts: (ConfigFile, String))
        ensures
            parts.0 == self.contents,
            parts.1 == self.source,
    {
        (self.contents, self.source)
    }

    /// The settings.
    pub fn into_contents(self) -> (contents: ConfigFile)
        ensures
            contents == self.contents,
    {
        self.contents
    }

    /// Where the settings were found.
    pub fn source(&self) -> (source: &str)
        ensures
            source@ == self.source@,
    {
        self.source.as_str()
    }
}

/// The settings in force and the file they came from, if any.
#[derive(Debug, Clone, PartialEq, Eq)]
pub struct ResolvedConfigWithSource {
    pub resolved: ResolvedConfig,
    pub source: Option<String>,
}

/// Why no configuration could be had from a file that exists.
#[derive(Debug, Clone, PartialEq, Eq)]
pub enum ConfigError {
    Read { path: String, source: String },
    Parse { path: String, message: String },
}

/// What reading one candidate file came to.
#[derive(Debug, Clone, PartialEq, Eq)]
pub enum ConfigProbe {
    /// There is no such file.
    NotFound,
    /// The file could not be read; the text says why.
    Unreadable(String),
    /// The file was read but is no valid configuration; the text says why.
    Unparsable(String),
    /// The file holds these settings.
    Parsed(ConfigFile),
}

/// What to do after one candidate file was tried.
#[derive(Debug, Clone, PartialEq, Eq)]
pub enum ConfigSearch {
    /// Try the next candidate.
    Continue,
    /// This file counts.
    Found(LoadedConfig),
    /// The search ends in this error.
    Failed(ConfigError),
}

/// Decides what follows from trying the candidate at `path`: a file that is
/// missing lets the search go on; the first file that exists decides it, for
/// better or worse.
pub fn load_from_paths(path: &str, probe: ConfigProbe) -> (search: ConfigSearch)
    ensures
        match probe {
            ConfigProbe::NotFound => search is Continue,
            ConfigProbe::Unreadable(cause) => search matches ConfigSearch::Failed(
                ConfigError::Read { path: at, source },
            ) && at@ == path@ && source@ == cause@,
            ConfigProbe::Unparsable(cause) => search matches ConfigSearch::Failed(
                ConfigError::Parse { path: at, message },
            ) && at@ == path@ && message@ == cause@,
            ConfigProbe::Parsed(file) => search matches ConfigSearch::Found(loaded)
                && loaded.contents == file && loaded.source@ == path@,
        },
{
    match probe {
        ConfigProbe::NotFound => ConfigSearch::Continue,
        ConfigProbe::Unreadable(cause) => ConfigSearch::Failed(
            ConfigError::Read { path: path.to_owned(), source: cause },
        ),
        ConfigProbe::Unparsable(cause) => ConfigSearch::Failed(
            ConfigError::Parse { path: path.to_owned(), message: cause },
        ),
        ConfigProbe::Parsed(file) => ConfigSearch::Found(LoadedConfig::new(file, path.to_owned())),
    }
}

/// The settings in force once the search is over: those of the file that
/// was found, or the defaults where none was.
pub fn load_resolved_from_paths(found: Option<LoadedConfig>) -> (resolved:
    ResolvedConfigWithSource)
    ensures
        match found {
            Some(loaded) => resolves(loaded.contents, resolved.resolved) && opt_text(
                resolved.source,
            ) == Some(loaded.source@),
            None => resolves(ConfigFile::default_file(), resolved.resolved) && resolved.source
                is None,
        },
{
    match found {
        Some(loaded) => {
            let source = loaded.source.clone();
            ResolvedConfigWithSource {
                resolved: ResolvedConfig::from_raw(loaded.contents),
                source: Some(source),
            }
        },
        None => ResolvedConfigWithSource { resolved: ResolvedConfig::default(), source: None },
    }
}

impl ConfigFile {
    /// The file that sets nothing.
    pub open spec fn default_file() -> ConfigFile {
        ConfigFile {
            similarity_threshold: None,
            capture_timeout_secs: None,
            frame_interval_millis: None,
            embedding_store_dir: None,
            video_device: None,
            pixel_format: None,
            warmup_frames: None,
            jitters: None,
            landmark_model: None,
            encoder_model: None,
            require_secret_service: None,
        }
    }
}

/// The defaults a configuration file sets for captures.
#[derive(Debug, Default, Clone, PartialEq, Eq)]
pub struct CaptureDefaults {
    pub device: Option<String>,
    pub pixel_format: Option<String>,
    pub warmup_frames: Option<u32>,
}

/// The defaults a configuration file sets for the face models.
#[derive(Debug, Default, Clone, PartialEq, Eq)]
pub struct FaceModelDefaults {
    pub landmark_model: Option<String>,
    pub encoder_model: Option<String>,
}

/// The capture defaults of the configuration file that was found, if one
/// was.
pub fn load_capture_defaults(file: Option<ConfigFile>) -> (defaults: CaptureDefaults)
    ensures
        match file {
            Some(f) => opt_text(defaults.device) == opt_text(f.video_device) && opt_text(
                defaults.pixel_format,
            ) == opt_text(f.pixel_format) && defaults.warmup_frames == f.warmup_frames,
            None => defaults.device is None && defaults.pixel_format is None
                && defaults.warmup_frames is None,
        },
{
    match file {
        Some(f) => CaptureDefaults {
            device: f.video_device,
            pixel_format: f.pixel_format,
            warmup_frames: f.warmup_frames,
        },
        None => CaptureDefaults { device: None, pixel_format: None, warmup_frames: None },
    }
}

/// The model defaults of the configuration file that was found, if one was.
pub fn load_face_model_defaults(file: Option<ConfigFile>) -> (defaults: FaceModelDefaults)
    ensures
        match file {
            Some(f) => opt_text(defaults.landmark_model) == opt_text(f.landmark_model) && opt_text(
                defaults.encoder_model,
            ) == opt_text(f.encoder_model),
            None => defaults.landmark_model is None && defaults.encoder_model is None,
        },
{
    match file {
        Some(f) => FaceModelDefaults {
            landmark_model: f.landmark_model,
            encoder_model: f.encoder_model,
        },
        None => FaceModelDefaults { landmark_model: None, encoder_model: None },
    }
}

/// The store directory in force: the one given on the command line, else the
/// one of the configuration file that was found, else none.
pub fn resolve_store_dir(cli_value: Option<String>, file: Option<ConfigFile>) -> (dir: Option<
    String,
>)
    ensures
        opt_text(dir) == match cli_value {
            Some(value) => Some(value@),
            None => match file {
                Some(f) => opt_text(f.embedding_store_dir),
                None => None,
            },
        },
{
    match cli_value {
        Some(value) => Some(value),
        None => match file {
            Some(f) => f.embedding_store_dir,
            None => None,
        },
    }
}

/// A configuration error as the command-line tool reports it.
pub fn map_config_error(err: ConfigError) -> (mapped: AppError)
    ensures
        match err {
            ConfigError::Read { path, source } => mapped == (AppError::ConfigRead { path, source }),
            ConfigError::Parse { path, message } => mapped == (AppError::ConfigParse {
                path,
                message,
            }),
        },
{
    match err {
        ConfigError::Read { path, source } => AppError::ConfigRead { path, source },
        ConfigError::Parse { path, message } => AppError::ConfigParse { path, message },
    }
}

/// The words with which the authentication engine reports a configuration
/// error.
pub open spec fn config_failure_text(err: ConfigError) -> Seq<char> {
    match err {
        ConfigError::Read { path, source } => "Failed to read "@ + path@ + ": "@ + source@,
        ConfigError::Parse { path, message } => "Failed to parse "@ + path@ + ": "@ + message@,
    }
}

/// A configuration error as the authentication engine reports it.
pub fn map_auth_config_error(err: ConfigError) -> (mapped: AuthError)
    ensures
        mapped matches AuthError::Config(message) && message@ == config_failure_text(err),
{
    match err {
        ConfigError::Read { path, source } => {
            let mut m = "Failed to read ".to_owned();
            m.append(path.as_str());
            m.append(": ");
            m.append(source.as_str());
            AuthError::Config(m)
        },
        ConfigError::Parse { path, message } => {
            let mut m = "Failed to parse ".to_owned();
            m.append(path.as_str());
            m.append(": ");
            m.append(message.as_str());
            AuthError::Config(m)
        },
    }
}

} // verus!
