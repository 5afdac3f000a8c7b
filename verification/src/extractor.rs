//! What face extraction is configured with and what it yields.
use crate::codec::file_stamp;
use crate::errors::{AppError, AppResult};
use crate::logind::{copy_of, opt_text};
use crate::scalar::{Scalar, EPSILON_BITS};
use crate::text::{decimal, decimal_digits};
use vstd::prelude::*;
use vstd::string::StringExecFns;

verus! {

/// Where in the image a face was found, in pixels.
#[derive(Debug, Clone, PartialEq, Eq)]
pub struct BoundingBox {
    pub left: i64,
    pub top: i64,
    pub right: i64,
    pub bottom: i64,
}

/// One detected face: where it is and the vector that summarises it.
#[derive(Debug, Clone, PartialEq, Eq)]
pub struct FaceEmbeddingRecord {
    pub bounding_box: BoundingBox,
    pub embedding: Vec<Scalar>,
}

/// The environment variable that names the landmark model.
pub const LANDMARK_ENV: &'static str = "DLIB_LANDMARK_MODEL";

/// The environment variable that names the encoder model.
pub const ENCODER_ENV: &'static str = "DLIB_ENCODER_MODEL";

/// What one extraction is run with.
#[derive(Debug, Clone, PartialEq, Eq)]
pub struct FaceExtractionConfig {
    pub image: String,
    pub landmark_model: Option<String>,
    pub encoder_model: Option<String>,
    pub output: Option<String>,
    pub jitters: u32,
}

/// Where the two models lie.
#[derive(Debug, Clone, PartialEq, Eq)]
pub struct FaceModelPaths {
    pub landmark: String,
    pub encoder: String,
}

/// Something that finds the models for an extraction.
pub trait ModelPathResolver {
    fn resolve(&self, config: &FaceExtractionConfig) -> AppResult<FaceModelPaths>;
}

/// Finds the models in the configuration and, failing that, in the
/// environment, whose two variables it holds as they were when it was made.
#[derive(Debug, Clone, Default, PartialEq, Eq)]
pub struct EnvModelPathResolver {
    /// The value of `DLIB_LANDMARK_MODEL`, if it is set.
    pub landmark_env: Option<String>,
    /// The value of `DLIB_ENCODER_MODEL`, if it is set.
    pub encoder_env: Option<String>,
}

/// Whether `err` reports that the model of this kind is configured nowhere.
pub open spec fn is_missing_model(
    err: AppError,
    kind: Seq<char>,
    flag: Seq<char>,
    env: Seq<char>,
) -> bool {
    err matches AppError::MissingModel { kind: k, flag: f, env: e } && k@ == kind && f@ == flag
        && e@ == env
}

/// Whether `found` is what the search for the two models comes to: each
/// model is taken from the configuration, else from the environment; a
/// model found in neither is an error, the landmark model's before the
/// encoder's.
pub open spec fn finds_models(
    found: Result<FaceModelPaths, AppError>,
    config: FaceExtractionConfig,
    landmark_env: Option<String>,
    encoder_env: Option<String>,
) -> bool {
    match first_of(config.landmark_model, landmark_env) {
        None => found matches Err(err) && is_missing_model(
            err,
            "landmark predictor"@,
            "--landmark-model"@,
            LANDMARK_ENV@,
        ),
        Some(landmark) => match first_of(config.encoder_model, encoder_env) {
            None => found matches Err(err) && is_missing_model(
                err,
                "face encoding network"@,
                "--encoder-model"@,
                ENCODER_ENV@,
            ),
            Some(encoder) => found matches Ok(paths) && paths.landmark@ == landmark
                && paths.encoder@ == encoder,
        },
    }
}

/// The first of two optional texts that is there.
pub open spec fn first_of(first: Option<String>, second: Option<String>) -> Option<Seq<char>> {
    match first {
        Some(s) => Some(s@),
        None => opt_text(second),
    }
}

fn first_copy(first: &Option<String>, second: &Option<String>) -> (found: Option<String>)
    ensures
        opt_text(found) == first_of(*first, *second),
{
    match first {
        Some(s) => Some(s.clone()),
        None => copy_of(second),
    }
}

impl EnvModelPathResolver {
    /// Finds the two models for `config`.
    pub fn find(&self, config: &FaceExtractionConfig) -> (found: Result<FaceModelPaths, AppError>)
        ensures
            finds_models(found, *config, self.landmark_env, self.encoder_env),
    {
        let landmark = match first_copy(&config.landmark_model, &self.landmark_env) {
            Some(path) => path,
            None => {
                return Err(
                    AppError::MissingModel {
                        kind: "landmark predictor".to_owned(),
                        flag: "--landmark-model".to_owned(),
                        env: LANDMARK_ENV.to_owned(),
                    },
                );
            },
        };
        let encoder = match first_copy(&config.encoder_model, &self.encoder_env) {
            Some(path) => path,
            None => {
                return Err(
                    AppError::MissingModel {
                        kind: "face encoding network".to_owned(),
                        flag: "--encoder-model".to_owned(),
                        env: ENCODER_ENV.to_owned(),
                    },
                );
            },
        };
        Ok(FaceModelPaths { landmark, encoder })
    }
}

impl ModelPathResolver for EnvModelPathResolver {
    fn resolve(&self, config: &FaceExtractionConfig) -> (found: AppResult<FaceModelPaths>)
        ensures
            finds_models(found, *config, self.landmark_env, self.encoder_env),
    {
        self.find(config)
    }
}

/// The file an extraction is written to unless it is told otherwise, for a
/// time stamp: `captures/features/face-features-{stamp}.json`.
pub open spec fn default_output_for(stamp: Seq<char>) -> Seq<char> {
    "captures/features/face-features-"@ + stamp + ".json"@
}

/// The output file for an extraction stamped `stamp`.
pub fn default_output_path_for(stamp: &str) -> (path: String)
    ensures
        path@ == default_output_for(stamp@),
{
    let mut path = "captures/features/face-features-".to_owned();
    path.append(stamp);
    path.append(".json");
    path
}

impl FaceExtractionConfig {
    /// The file this extraction is written to: the one it names, or one
    /// under `captures/features` named after the present moment.
    pub fn output_path(&self) -> (path: String)
        ensures
            self.output matches Some(named) ==> path@ == named@,
            self.output is None ==> exists|stamp: Seq<char>| path@ == default_output_for(stamp),
    {
        match &self.output {
            Some(path) => path.clone(),
            None => {
                let stamp = file_stamp();
                default_output_path_for(stamp.as_str())
            },
        }
    }
}

/// The record of one extraction.
#[derive(Debug, Clone, PartialEq, Eq)]
pub struct FaceExtractionSummary {
    pub success: bool,
    pub image_path: String,
    pub output_path: String,
    pub num_faces: usize,
    pub faces: Vec<FaceEmbeddingRecord>,
    pub landmark_model: String,
    pub encoder_model: String,
    pub num_jitters: u32,
}

/// One extraction, with what was logged on the way.
#[derive(Debug, Clone, PartialEq, Eq)]
pub struct FaceExtractionOutcome {
    pub summary: FaceExtractionSummary,
    pub logs: Vec<String>,
}

/// Something that finds the faces in an image and computes their vectors.
pub trait FaceEmbeddingBackend {
    fn extract(&self, image: &crate::frame::RgbFrame, num_jitters: u32) -> AppResult<
        Vec<FaceEmbeddingRecord>,
    >;
}

/// The lines logged for an extraction of `faces` faces from the image at
/// `image`, which is `width` by `height`, written to `output`.
pub open spec fn extraction_logs(
    image: Seq<char>,
    width: u32,
    height: u32,
    faces: Seq<FaceEmbeddingRecord>,
    output: Seq<char>,
) -> Seq<Seq<char>> {
    let loaded = "Loaded image "@ + image + " ("@ + decimal_digits(width as nat) + "x"@
        + decimal_digits(height as nat) + ")"@;
    let detected = "Detected "@ + decimal_digits(faces.len()) + " face(s)"@;
    let saved = "Saved embedding data to "@ + output;
    if faces.len() > 0 {
        seq![
            loaded,
            detected,
            "Embedding vector length: "@ + decimal_digits(faces[0].embedding@.len()),
            saved,
        ]
    } else {
        seq![loaded, detected, saved]
    }
}

/// Puts together what an extraction came to: the record that is written to
/// `output_path`, and the lines that are logged.
pub fn summarize_extraction(
    config: &FaceExtractionConfig,
    models: &FaceModelPaths,
    width: u32,
    height: u32,
    faces: Vec<FaceEmbeddingRecord>,
    output_path: &str,
) -> (outcome: FaceExtractionOutcome)
    ensures
        outcome.summary.success,
        outcome.summary.image_path@ == config.image@,
        outcome.summary.output_path@ == output_path@,
        outcome.summary.num_faces == faces@.len(),
        outcome.summary.faces == faces,
        outcome.summary.landmark_model@ == models.landmark@,
        outcome.summary.encoder_model@ == models.encoder@,
        outcome.summary.num_jitters == config.jitters,
        crate::text::text_views(outcome.logs@) == extraction_logs(
            config.image@,
            width,
            height,
            faces@,
            output_path@,
        ),
{
    let mut logs: Vec<String> = Vec::new();
    let mut line = "Loaded image ".to_owned();
    line.append(config.image.as_str());
    line.append(" (");
    let w = decimal(width as u64);
    line.append(w.as_str());
    line.append("x");
    let h = decimal(height as u64);
    line.append(h.as_str());
    line.append(")");
    logs.push(line);
    let mut line = "Detected ".to_owned();
    let n = decimal(faces.len() as u64);
    line.append(n.as_str());
    line.append(" face(s)");
    logs.push(line);
    if faces.len() > 0 {
        let mut line = "Embedding vector length: ".to_owned();
        let l = decimal(faces[0].embedding.len() as u64);
        line.append(l.as_str());
        logs.push(line);
    }
    let mut line = "Saved embedding data to ".to_owned();
    line.append(output_path);
    logs.push(line);
    assert(crate::text::text_views(logs@) =~= extraction_logs(
        config.image@,
        width,
        height,
        faces@,
        output_path@,
    ));
    let summary = FaceExtractionSummary {
        success: true,
        image_path: config.image.clone(),
        output_path: output_path.to_owned(),
        num_faces: faces.len(),
        faces,
        landmark_model: models.landmark.clone(),
        encoder_model: models.encoder.clone(),
        num_jitters: config.jitters,
    };
    FaceExtractionOutcome { summary, logs }
}

/// What is read of a face when a payload is validated: how long its vector
/// is, and how long in the Euclidean sense.
#[derive(Debug, Clone, Copy, PartialEq, Eq)]
pub struct FaceMeasure {
    pub embedding_len: usize,
    pub magnitude: Scalar,
}

/// What is wrong with a payload of faces.
pub enum PayloadFault {
    /// There is no face in it.
    NoFaces,
    /// The vectors are empty.
    EmptyVectors,
    /// The face at `index` has a vector of `found` values.
    LengthMismatch { index: nat, found: nat },
    /// The face at `index` has a vector of magnitude zero.
    ZeroMagnitude { index: nat },
}

/// A magnitude that counts as zero: one at or below the smallest step
/// between numbers near one.
pub open spec fn is_negligible(magnitude: Scalar) -> bool {
    (Scalar { bits: EPSILON_BITS }).spec_ge(&magnitude)
}

/// The first thing wrong with the faces from index `from` on, where vectors
/// are to hold `expected` values.
pub open spec fn first_face_fault(faces: Seq<FaceMeasure>, expected: usize, from: int) -> Option<
    PayloadFault,
>
    decreases faces.len() - from,
{
    if from < 0 || from >= faces.len() {
        None
    } else if faces[from].embedding_len != expected {
        Some(
            PayloadFault::LengthMismatch {
                index: from as nat,
                found: faces[from].embedding_len as nat,
            },
        )
    } else if is_negligible(faces[from].magnitude) {
        Some(PayloadFault::ZeroMagnitude { index: from as nat })
    } else {
        first_face_fault(faces, expected, from + 1)
    }
}

/// What is wrong with a payload, if anything: it must hold a face, the
/// first vector must not be empty, and every vector must have the length of
/// the first and a magnitude that does not count as zero. Faces are
/// examined in order.
pub open spec fn payload_fault(faces: Seq<FaceMeasure>) -> Option<PayloadFault> {
    if faces.len() == 0 {
        Some(PayloadFault::NoFaces)
    } else if faces[0].embedding_len == 0 {
        Some(PayloadFault::EmptyVectors)
    } else {
        first_face_fault(faces, faces[0].embedding_len, 0)
    }
}

/// The message for a fault, where vectors are to hold `expected` values.
pub open spec fn payload_fault_text(fault: PayloadFault, expected: nat) -> Seq<char> {
    match fault {
        PayloadFault::NoFaces => "contains no face embeddings"@,
        PayloadFault::EmptyVectors => "embedding vectors are empty"@,
        PayloadFault::LengthMismatch { index, found } =>
            "embedding length mismatch at face index "@ + decimal_digits(index) + " (expected "@
                + decimal_digits(expected) + ", found "@ + decimal_digits(found) + ")"@,
        PayloadFault::ZeroMagnitude { index } => "face index "@ + decimal_digits(index)
            + " has zero-magnitude embedding"@,
    }
}

fn invalid_payload(path: &str, message: String) -> (err: AppError)
    ensures
        err matches AppError::InvalidFeatureFile { path: at, message: m } && at@ == path@ && m
            == message,
{
    AppError::InvalidFeatureFile { path: path.to_owned(), message }
}

/// Validates the faces of the payload at `path` and returns the length
/// their vectors share.
pub fn ensure_valid_faces(faces: &Vec<FaceMeasure>, path: &str) -> (checked: Result<
    usize,
    AppError,
>)
    ensures
        match payload_fault(faces@) {
            None => checked matches Ok(length) && faces@.len() > 0 && length
                == faces@[0].embedding_len,
            Some(fault) => checked matches Err(AppError::InvalidFeatureFile { path: at, message })
                && at@ == path@ && message@ == payload_fault_text(
                fault,
                if faces@.len() > 0 {
                    faces@[0].embedding_len as nat
                } else {
                    0
                },
            ),
        },
{
    if faces.len() == 0 {
        return Err(invalid_payload(path, "contains no face embeddings".to_owned()));
    }
    let expected = faces[0].embedding_len;
    if expected == 0 {
        return Err(invalid_payload(path, "embedding vectors are empty".to_owned()));
    }
    let mut i: usize = 0;
    while i < faces.len()
        invariant
            i <= faces.len(),
            faces@.len() > 0,
            expected == faces@[0].embedding_len,
            expected > 0,
            first_face_fault(faces@, expected, 0) == first_face_fault(faces@, expected, i as int),
        decreases faces.len() - i,
    {
        let face = faces[i];
        if face.embedding_len != expected {
            let mut m = "embedding length mismatch at face index ".to_owned();
            let at = decimal(i as u64);
            m.append(at.as_str());
            m.append(" (expected ");
            let e = decimal(expected as u64);
            m.append(e.as_str());
            m.append(", found ");
            let f = decimal(face.embedding_len as u64);
            m.append(f.as_str());
            m.append(")");
            return Err(invalid_payload(path, m));
        }
        if face.magnitude.le(&Scalar::epsilon()) {
            let mut m = "face index ".to_owned();
            let at = decimal(i as u64);
            m.append(at.as_str());
            m.append(" has zero-magnitude embedding");
            return Err(invalid_payload(path, m));
        }
        i += 1;
    }
    Ok(expected)
}

/// A payload without a fault holds at least one face, and every face in it
/// has a vector of the same positive length and a magnitude that counts.
pub proof fn lemma_valid_payload(faces: Seq<FaceMeasure>)
    requires
        payload_fault(faces) is None,
    ensures
        faces.len() > 0,
        faces[0].embedding_len > 0,
        forall|i: int|
            0 <= i < faces.len() ==> (#[trigger] faces[i]).embedding_len == faces[0].embedding_len
                && !is_negligible(faces[i].magnitude),
{
    lemma_no_face_fault(faces, faces[0].embedding_len, 0);
}

/// Where no face from index `from` on has a fault, each has a vector of the
/// expected length and a magnitude that counts.
pub proof fn lemma_no_face_fault(faces: Seq<FaceMeasure>, expected: usize, from: int)
    requires
        0 <= from <= faces.len(),
        first_face_fault(faces, expected, from) is None,
    ensures
        forall|i: int|
            from <= i < faces.len() ==> (#[trigger] faces[i]).embedding_len == expected
                && !is_negligible(faces[i].magnitude),
    decreases faces.len() - from,
{
    if from < faces.len() {
        lemma_no_face_fault(faces, expected, from + 1);
    }
}

} // verus!
