//! The command line of the capture and enrollment tool, as plain values.
use vstd::prelude::*;

verus! {

/// The pixel format asked of the camera unless flag or configuration says
/// otherwise.
pub const DEFAULT_PIXEL_FORMAT: &'static str = "Y16";

/// The frames discarded before a capture unless flag or configuration says
/// otherwise.
pub const DEFAULT_WARMUP_FRAMES: u32 = 4;

/// How results are printed.
#[derive(Debug, Clone, Copy, PartialEq, Eq, Structural)]
pub enum OutputMode {
    Human,
    Json,
}

impl OutputMode {
    /// JSON where the `--json` flag is given, text for people otherwise.
    pub fn from_json_flag(json: bool) -> (mode: OutputMode)
        ensures
            mode == if json {
                OutputMode::Json
            } else {
                OutputMode::Human
            },
    {
        if json {
            OutputMode::Json
        } else {
            OutputMode::Human
        }
    }
}

/// The formats a captured frame can be written in.
#[derive(Debug, Clone, Copy, PartialEq, Eq, Structural)]
pub enum OutputFormat {
    Png,
}

/// `capture`: take one frame from the camera.
#[derive(Debug, Clone, PartialEq, Eq)]
pub struct CaptureArgs {
    /// Device path or index.
    pub device: Option<String>,
    /// Four-character code of the pixel format.
    pub pixel_format: Option<String>,
    pub width: Option<u32>,
    pub height: Option<u32>,
    pub exposure: Option<i32>,
    pub gain: Option<i32>,
    pub auto_exposure: bool,
    pub auto_gain: bool,
    pub warmup_frames: Option<u32>,
    pub output: Option<String>,
}

/// `enroll`: capture, extract and enroll in one go.
#[derive(Debug, Clone, PartialEq, Eq)]
pub struct EnrollArgs {
    pub user: Option<String>,
    pub store_dir: Option<String>,
    pub device: Option<String>,
    pub landmark_model: Option<String>,
    pub encoder_model: Option<String>,
    pub jitters: u32,
}

/// `faces extract`: compute embeddings for the faces in an image.
#[derive(Debug, Clone, PartialEq, Eq)]
pub struct FaceExtractArgs {
    pub image: String,
    pub landmark_model: Option<String>,
    pub encoder_model: Option<String>,
    pub output: Option<String>,
    pub jitters: u32,
}

/// `faces compare`: compare one embedding file with others.
#[derive(Debug, Clone, PartialEq, Eq)]
pub struct FaceCompareArgs {
    pub input: String,
    pub compare_targets: Vec<String>,
}

/// `faces enroll`: add the embeddings of a file to a user's store.
#[derive(Debug, Clone, PartialEq, Eq)]
pub struct FaceEnrollArgs {
    pub user: String,
    pub embedding: String,
    pub store_dir: Option<String>,
}

/// `faces remove`: remove embeddings from a user's store.
#[derive(Debug, Clone, PartialEq, Eq)]
pub struct FaceRemoveArgs {
    pub user: String,
    pub embedding_id: Vec<String>,
    pub all: bool,
    pub store_dir: Option<String>,
}

/// `keyring check` takes no arguments.
#[derive(Debug, Clone, Copy, PartialEq, Eq, Structural)]
pub struct KeyringCheckArgs;

/// The subcommands of `faces`.
#[derive(Debug, Clone, PartialEq, Eq)]
pub enum FacesCommands {
    Extract(FaceExtractArgs),
    Compare(FaceCompareArgs),
    Enroll(FaceEnrollArgs),
    Remove(FaceRemoveArgs),
}

/// The subcommands of `keyring`.
#[derive(Debug, Clone, Copy, PartialEq, Eq, Structural)]
pub enum KeyringCommands {
    Check(KeyringCheckArgs),
}

/// The commands of the tool.
#[derive(Debug, Clone, PartialEq, Eq)]
pub enum Commands {
    Capture(CaptureArgs),
    Enroll(EnrollArgs),
    Faces(FacesCommands),
    Keyring(KeyringCommands),
    Doctor,
}

/// One invocation of the tool.
#[derive(Debug, Clone, PartialEq, Eq)]
pub struct Cli {
    /// Print JSON instead of text for people.
    pub json: bool,
    /// How often `--verbose` was given.
    pub verbose: u8,
    pub command: Commands,
}

impl Cli {
    /// How results are to be printed.
    pub fn output_mode(&self) -> (mode: OutputMode)
        ensures
            mode == if self.json {
                OutputMode::Json
            } else {
                OutputMode::Human
            },
    {
        OutputMode::from_json_flag(self.json)
    }
}

/// The most verbose log level that is shown: `info` without `--verbose`,
/// `debug` with one, `trace` with more.
pub fn log_level(verbose: u8) -> (level: &'static str)
    ensures
        level@ == if verbose == 0 {
            "info"@
        } else if verbose == 1 {
            "debug"@
        } else {
            "trace"@
        },
{
    if verbose == 0 {
        "info"
    } else if verbose == 1 {
        "debug"
    } else {
        "trace"
    }
}

} // verus!
