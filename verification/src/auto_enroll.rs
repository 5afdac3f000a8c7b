//! Capturing, extracting and enrolling in one go.
use crate::cli::{
    CaptureArgs, EnrollArgs, FaceCompareArgs, FaceEnrollArgs, FaceExtractArgs, FaceRemoveArgs,
};
use crate::comparer::FaceComparisonConfig;
use crate::config::FaceModelDefaults;
use crate::enrollment::{FaceEnrollmentConfig, FaceEnrollmentOutcome, FaceRemovalConfig};
use crate::errors::{AppError, AppResult};
use crate::extractor::{first_of, FaceExtractionConfig};
use crate::logind::{copy_of, opt_text};
use crate::text::{join_path, joined_path};
use vstd::prelude::*;
use vstd::string::StringExecFns;

verus! {

/// What one automatic enrollment came to.
#[derive(Debug, Clone, PartialEq, Eq)]
pub struct AutoEnrollOutcome {
    pub target_user: String,
    pub capture_path: String,
    pub descriptor_path: String,
    pub capture_deleted: bool,
    pub descriptor_deleted: bool,
    pub faces_detected: usize,
    pub enrollment: FaceEnrollmentOutcome,
    pub logs: Vec<String>,
}

/// The user to enroll: the one asked for, which only root may do, or the
/// current one where none is asked for.
pub fn resolve_target_user_inner(requested: Option<&str>, is_root: bool, current: &str) -> (
target: AppResult<String>)
    ensures
        match requested {
            Some(user) => if is_root {
                target matches Ok(name) && name@ == user@
            } else {
                target matches Err(AppError::InvalidUser { user: named, message }) && named@
                    == user@ && message@ == "only root may override the enrollment user"@
            },
            None => target matches Ok(name) && name@ == current@,
        },
{
    match requested {
        Some(user) => {
            if is_root {
                Ok(user.to_owned())
            } else {
                Err(
                    AppError::InvalidUser {
                        user: user.to_owned(),
                        message: "only root may override the enrollment user".to_owned(),
                    },
                )
            }
        },
        None => Ok(current.to_owned()),
    }
}

/// The models to use: each from the command line, else from the
/// configuration file.
pub fn resolve_model_paths(args: &EnrollArgs, defaults: &FaceModelDefaults) -> (models: (
    Option<String>,
    Option<String>,
))
    ensures
        opt_text(models.0) == first_of(args.landmark_model, defaults.landmark_model),
        opt_text(models.1) == first_of(args.encoder_model, defaults.encoder_model),
{
    let landmark = match &args.landmark_model {
        Some(path) => Some(path.clone()),
        None => copy_of(&defaults.landmark_model),
    };
    let encoder = match &args.encoder_model {
        Some(path) => Some(path.clone()),
        None => copy_of(&defaults.encoder_model),
    };
    (landmark, encoder)
}

/// The files an automatic enrollment works with under the directory `base`,
/// for a time stamp: the captured frame and the extracted faces.
pub fn build_temp_paths(base: &str, stamp: &str) -> (paths: (String, String))
    ensures
        paths.0@ == joined_path(base@, "capture-"@ + stamp@ + ".png"@),
        paths.1@ == joined_path(base@, "features-"@ + stamp@ + ".json"@),
{
    let mut capture = "capture-".to_owned();
    capture.append(stamp);
    capture.append(".png");
    let mut features = "features-".to_owned();
    features.append(stamp);
    features.append(".json");
    (join_path(base, capture.as_str()), join_path(base, features.as_str()))
}

/// The capture an automatic enrollment asks for: the device it was told,
/// the frame written to `capture_path`, and everything else left to the
/// defaults.
pub fn auto_capture_args(device_override: &Option<String>, capture_path: &str) -> (args:
    CaptureArgs)
    ensures
        opt_text(args.device) == opt_text(*device_override),
        opt_text(args.output) == Some(capture_path@),
        args.pixel_format is None && args.width is None && args.height is None,
        args.exposure is None && args.gain is None && args.warmup_frames is None,
        !args.auto_exposure && !args.auto_gain,
{
    CaptureArgs {
        device: copy_of(device_override),
        pixel_format: None,
        width: None,
        height: None,
        exposure: None,
        gain: None,
        auto_exposure: false,
        auto_gain: false,
        warmup_frames: None,
        output: Some(capture_path.to_owned()),
    }
}

/// Refuses to enroll from a frame in which no face was found.
pub fn ensure_faces_detected(num_faces: usize, descriptor_path: &str) -> (checked: AppResult<()>)
    ensures
        num_faces > 0 ==> checked is Ok,
        num_faces == 0 ==> (checked matches Err(AppError::EmbeddingValidation { path, message })
            && path@ == descriptor_path@ && message@ == "no faces detected in captured frame"@),
{
    if num_faces == 0 {
        return Err(
            AppError::EmbeddingValidation {
                path: descriptor_path.to_owned(),
                message: "no faces detected in captured frame".to_owned(),
            },
        );
    }
    Ok(())
}

/// What an attempt to delete a temporary file came to.
#[derive(Debug, Clone, PartialEq, Eq)]
pub enum FileRemoval {
    Removed,
    /// There was nothing to delete.
    NotFound,
    /// Deleting failed; the text says how.
    Failed(String),
}

/// What an attempt to delete a temporary directory came to.
#[derive(Debug, Clone, PartialEq, Eq)]
pub enum DirRemoval {
    Removed,
    /// There was nothing to delete.
    NotFound,
    /// The directory still holds something.
    NotEmpty,
    /// Deleting failed; the text says how.
    Failed(String),
}

/// What is logged of the attempt to delete the temporary file at `path`,
/// which held the `label`.
pub open spec fn file_cleanup_line(
    path: Seq<char>,
    label: Seq<char>,
    removal: FileRemoval,
) -> Option<Seq<char>> {
    match removal {
        FileRemoval::Removed => Some("Deleted temporary "@ + label + " "@ + path),
        FileRemoval::NotFound => None,
        FileRemoval::Failed(cause) => Some(
            "Failed to delete temporary "@ + label + " "@ + path + ": "@ + cause@,
        ),
    }
}

/// Logs the attempt to delete a temporary file, and tells whether the file
/// is gone because of it.
pub fn cleanup_file(path: &str, logs: &mut Vec<String>, label: &str, removal: &FileRemoval) -> (
deleted: bool)
    ensures
        deleted == (*removal is Removed),
        match file_cleanup_line(path@, label@, *removal) {
            Some(line) => final(logs)@.len() == old(logs)@.len() + 1 && final(logs)@.last()@
                == line,
            None => final(logs)@ == old(logs)@,
        },
{
    match removal {
        FileRemoval::Removed => {
            let mut line = "Deleted temporary ".to_owned();
            line.append(label);
            line.append(" ");
            line.append(path);
            logs.push(line);
            true
        },
        FileRemoval::NotFound => false,
        FileRemoval::Failed(cause) => {
            let mut line = "Failed to delete temporary ".to_owned();
            line.append(label);
            line.append(" ");
            line.append(path);
            line.append(": ");
            line.append(cause.as_str());
            logs.push(line);
            false
        },
    }
}

/// What is logged of the attempt to delete the temporary directory at
/// `path`.
pub open spec fn dir_cleanup_line(path: Seq<char>, removal: DirRemoval) -> Option<Seq<char>> {
    match removal {
        DirRemoval::Removed => Some("Removed temporary directory "@ + path),
        DirRemoval::NotFound => None,
        DirRemoval::NotEmpty => Some(
            "Temporary directory "@ + path + " not empty; leaving in place"@,
        ),
        DirRemoval::Failed(cause) => Some(
            "Failed to remove temporary directory "@ + path + ": "@ + cause@,
        ),
    }
}

/// Logs the attempt to delete the temporary directory.
pub fn cleanup_dir(path: &str, logs: &mut Vec<String>, removal: &DirRemoval)
    ensures
        match dir_cleanup_line(path@, *removal) {
            Some(line) => final(logs)@.len() == old(logs)@.len() + 1 && final(logs)@.last()@
                == line,
            None => final(logs)@ == old(logs)@,
        },
{
    match removal {
        DirRemoval::Removed => {
            let mut line = "Removed temporary directory ".to_owned();
            line.append(path);
            logs.push(line);
        },
        DirRemoval::NotFound => {},
        DirRemoval::NotEmpty => {
            let mut line = "Temporary directory ".to_owned();
            line.append(path);
            line.append(" not empty; leaving in place");
            logs.push(line);
        },
        DirRemoval::Failed(cause) => {
            let mut line = "Failed to remove temporary directory ".to_owned();
            line.append(path);
            line.append(": ");
            line.append(cause.as_str());
            logs.push(line);
        },
    }
}

/// The extraction that `args` ask for.
pub fn extraction_config(args: &FaceExtractArgs) -> (config: FaceExtractionConfig)
    ensures
        config.image@ == args.image@,
        opt_text(config.landmark_model) == opt_text(args.landmark_model),
        opt_text(config.encoder_model) == opt_text(args.encoder_model),
        opt_text(config.output) == opt_text(args.output),
        config.jitters == args.jitters,
{
    FaceExtractionConfig {
        image: args.image.clone(),
        landmark_model: copy_of(&args.landmark_model),
        encoder_model: copy_of(&args.encoder_model),
        output: copy_of(&args.output),
        jitters: args.jitters,
    }
}

/// The enrollment that `args` ask for.
pub fn enrollment_config(args: &FaceEnrollArgs) -> (config: FaceEnrollmentConfig)
    ensures
        config.user@ == args.user@,
        config.embedding@ == args.embedding@,
        opt_text(config.store_dir) == opt_text(args.store_dir),
{
    FaceEnrollmentConfig {
        user: args.user.clone(),
        embedding: args.embedding.clone(),
        store_dir: copy_of(&args.store_dir),
    }
}

/// The removal that `args` ask for, from the stores under `store_dir`.
pub fn removal_config(args: &FaceRemoveArgs, store_dir: Option<String>) -> (config:
    FaceRemovalConfig)
    ensures
        config.user@ == args.user@,
        crate::text::text_views(config.embedding_ids@) == crate::text::text_views(
            args.embedding_id@,
        ),
        config.remove_all == args.all,
        config.store_dir == store_dir,
{
    FaceRemovalConfig {
        user: args.user.clone(),
        embedding_ids: copy_texts(&args.embedding_id),
        remove_all: args.all,
        store_dir,
    }
}

/// The comparison that `args` ask for.
pub fn comparison_config(args: &FaceCompareArgs) -> (config: FaceComparisonConfig)
    ensures
        config.input@ == args.input@,
        crate::text::text_views(config.compare_targets@) == crate::text::text_views(
            args.compare_targets@,
        ),
{
    FaceComparisonConfig {
        input: args.input.clone(),
        compare_targets: copy_texts(&args.compare_targets),
    }
}

fn copy_texts(list: &Vec<String>) -> (copy: Vec<String>)
    ensures
        crate::text::text_views(copy@) == crate::text::text_views(list@),
{
    let mut copy: Vec<String> = Vec::new();
    let mut i: usize = 0;
    while i < list.len()
        invariant
            i <= list.len(),
            crate::text::text_views(copy@) == crate::text::text_views(list@).take(i as int),
        decreases list.len() - i,
    {
        let ghost before = crate::text::text_views(copy@);
        copy.push(list[i].clone());
        assert(crate::text::text_views(copy@) == before.push(list@[i as int]@));
        assert(crate::text::text_views(list@).take(i + 1) == crate::text::text_views(list@).take(
            i as int,
        ).push(crate::text::text_views(list@)[i as int]));
        i += 1;
    }
    assert(crate::text::text_views(list@).take(list@.len() as int) == crate::text::text_views(
        list@,
    ));
    copy
}

} // verus!
