//! One authentication attempt, as a state machine.
//!
//! The attempt validates the user, resolves the store's key where policy
//! asks for it, loads the store, and then polls the camera against a
//! deadline, matching what it sees against what is enrolled. Everything that
//! touches the outside (configuration files, the helper process, the store's
//! file, the camera, the face extractor, the clock) is the caller's part:
//! the caller performs the [`AuthAction`] it is handed and reports what came
//! of it as an [`AuthEvent`]. Every decision is taken here.
use crate::enrollment::{user_name_complaint, valid_user_name, validate_user_name};
use crate::errors::AppError;
use crate::logind::{environment_pairs, pair_views, SessionEnvironment};
use crate::scalar::{Scalar, NEG_INFINITY_BITS};
use crate::secret_helper::{HelperError, HelperResponse};
use crate::store::EnrolledEmbedding;
use crate::text::{decimal, decimal_digits, str_eq};
use vstd::prelude::*;
use vstd::string::StringExecFns;

verus! {

/// Why an attempt was aborted rather than decided.
#[derive(Debug, Clone, PartialEq, Eq)]
pub enum AuthError {
    /// The configuration or the enrolled data is unusable.
    Config(String),
    /// The host framework or the helper process failed.
    Pam(String),
    /// The store, the camera or the extractor failed.
    Core(AppError),
    /// The secret service cannot be used: this factor steps aside.
    SecretServiceUnavailable(String),
}

/// Who asks to be authenticated, and from which terminal.
#[derive(Debug, Clone, PartialEq, Eq)]
pub struct PamRequest {
    pub user: String,
    pub tty: Option<String>,
}

/// Why a decided attempt did not succeed.
#[derive(Debug, Clone, Copy, PartialEq, Eq, Structural)]
pub enum FailureReason {
    /// The user has no enrolled embeddings.
    EmbeddingsMissing,
    /// No frame showed a face before the deadline.
    NoFaceDetected,
    /// Faces were seen, but none came close enough.
    ThresholdNotReached,
}

/// How a decided attempt ended.
#[derive(Debug, Clone, Copy, PartialEq, Eq)]
pub struct AuthResult {
    pub success: bool,
    pub frames_captured: usize,
    pub best_similarity: Scalar,
    pub failure_reason: Option<FailureReason>,
}

impl AuthResult {
    /// The outcome of a match with this similarity after so many frames.
    pub fn success(best_similarity: Scalar, frames: usize) -> (result: AuthResult)
        ensures
            result == (AuthResult {
                success: true,
                frames_captured: frames,
                best_similarity,
                failure_reason: None,
            }),
    {
        AuthResult {
            success: true,
            frames_captured: frames,
            best_similarity,
            failure_reason: None,
        }
    }

    /// The outcome of an attempt that failed for this reason.
    pub fn failure(reason: FailureReason, best_similarity: Scalar, frames: usize) -> (result:
        AuthResult)
        ensures
            result == (AuthResult {
                success: false,
                frames_captured: frames,
                best_similarity,
                failure_reason: Some(reason),
            }),
    {
        AuthResult {
            success: false,
            frames_captured: frames,
            best_similarity,
            failure_reason: Some(reason),
        }
    }
}

/// The lengths of the vectors in `records`, in order.
pub open spec fn embedding_lengths(records: Seq<EnrolledEmbedding>) -> Seq<nat> {
    Seq::new(records.len(), |i: int| records[i].embedding@.len())
}

/// The first length at or after `from` that differs from `expected`.
pub open spec fn first_other_length(lengths: Seq<nat>, expected: nat, from: int) -> Option<nat>
    decreases lengths.len() - from,
{
    if from < 0 || from >= lengths.len() {
        None
    } else if lengths[from] != expected {
        Some(lengths[from])
    } else {
        first_other_length(lengths, expected, from + 1)
    }
}

/// What is wrong with enrolled vectors of these lengths, if anything: there
/// are none, they are empty, or one differs in length from the first.
pub open spec fn enrollment_fault(lengths: Seq<nat>) -> Option<Seq<char>> {
    if lengths.len() == 0 {
        Some("embedding store unexpectedly empty"@)
    } else if lengths[0] == 0 {
        Some("stored embeddings have zero length"@)
    } else {
        match first_other_length(lengths, lengths[0], 0) {
            Some(found) => Some(
                "embedding length mismatch: expected "@ + decimal_digits(lengths[0]) + ", found "@
                    + decimal_digits(found),
            ),
            None => None,
        }
    }
}

/// Where no length differs from `expected`, all lengths equal it, and the
/// other way round.
pub proof fn lemma_no_other_length(lengths: Seq<nat>, expected: nat, from: int)
    requires
        0 <= from <= lengths.len(),
    ensures
        first_other_length(lengths, expected, from) is None <==> (forall|i: int|
            from <= i < lengths.len() ==> #[trigger] lengths[i] == expected),
    decreases lengths.len() - from,
{
    if from < lengths.len() {
        lemma_no_other_length(lengths, expected, from + 1);
    }
}

/// Enrolled vectors are sound exactly when there is at least one, the first
/// is not empty, and all have the length of the first.
pub proof fn lemma_sound_enrollment(lengths: Seq<nat>)
    ensures
        enrollment_fault(lengths) is None <==> (lengths.len() > 0 && lengths[0] > 0 && forall|
            i: int,
        |
            0 <= i < lengths.len() ==> #[trigger] lengths[i] == lengths[0]),
{
    if lengths.len() > 0 {
        lemma_no_other_length(lengths, lengths[0], 0);
    }
}

/// Checks the enrolled vectors and returns the length they share. The length
/// of the first is the one that counts; nothing is truncated or padded to
/// make the others fit.
pub fn verify_enrolled_embeddings(embeddings: &Vec<EnrolledEmbedding>) -> (checked: Result<
    usize,
    AuthError,
>)
    ensures
        match enrollment_fault(embedding_lengths(embeddings@)) {
            None => checked matches Ok(length) && length == embeddings@[0].embedding@.len(),
            Some(fault) => checked matches Err(AuthError::Config(message)) && message@ == fault,
        },
{
    let ghost lengths = embedding_lengths(embeddings@);
    if embeddings.len() == 0 {
        return Err(AuthError::Config("embedding store unexpectedly empty".to_owned()));
    }
    let expected = embeddings[0].embedding.len();
    if expected == 0 {
        return Err(AuthError::Config("stored embeddings have zero length".to_owned()));
    }
    let mut i: usize = 0;
    while i < embeddings.len()
        invariant
            i <= embeddings.len(),
            lengths == embedding_lengths(embeddings@),
            expected == lengths[0],
            expected > 0,
            embeddings.len() > 0,
            first_other_length(lengths, expected as nat, 0) == first_other_length(
                lengths,
                expected as nat,
                i as int,
            ),
        decreases embeddings.len() - i,
    {
        let found = embeddings[i].embedding.len();
        if found != expected {
            assert(lengths[i as int] == found as nat);
            assert(first_other_length(lengths, expected as nat, i as int) == Some(found as nat));
            let mut m = "embedding length mismatch: expected ".to_owned();
            let e = decimal(expected as u64);
            m.append(e.as_str());
            m.append(", found ");
            let f = decimal(found as u64);
            m.append(f.as_str());
            return Err(AuthError::Config(m));
        }
        assert(lengths[i as int] == expected as nat);
        i += 1;
    }
    Ok(expected)
}

/// The largest of `scores` from index `from` on, starting out from `best`: a
/// score replaces the best so far only when it is strictly above it, so what
/// is not a number never does.
pub open spec fn peak_from(scores: Seq<Scalar>, from: int, best: Scalar) -> Scalar
    decreases scores.len() - from,
{
    if from < 0 || from >= scores.len() {
        best
    } else if scores[from].spec_gt(&best) {
        peak_from(scores, from + 1, scores[from])
    } else {
        peak_from(scores, from + 1, best)
    }
}

/// The best similarity among `scores`; negative infinity where there is none.
pub open spec fn peak(scores: Seq<Scalar>) -> Scalar {
    peak_from(scores, 0, Scalar { bits: NEG_INFINITY_BITS })
}

/// The peak is the starting value or one of the scores, and no score is
/// strictly above it.
pub proof fn lemma_peak_is_maximal(scores: Seq<Scalar>, from: int, best: Scalar)
    requires
        0 <= from <= scores.len(),
        !best.spec_is_nan(),
    ensures
        !peak_from(scores, from, best).spec_is_nan(),
        peak_from(scores, from, best).spec_ge(&best),
        peak_from(scores, from, best) == best || exists|i: int|
            from <= i < scores.len() && scores[i] == peak_from(scores, from, best),
        forall|i: int|
            from <= i < scores.len() ==> !(#[trigger] scores[i]).spec_gt(
                &peak_from(scores, from, best),
            ),
    decreases scores.len() - from,
{
    if from < scores.len() {
        if scores[from].spec_gt(&best) {
            lemma_peak_is_maximal(scores, from + 1, scores[from]);
            let p = peak_from(scores, from + 1, scores[from]);
            if p == scores[from] {
                assert(from <= from < scores.len() && scores[from] == p);
            }
        } else {
            lemma_peak_is_maximal(scores, from + 1, best);
        }
    }
}

/// The best of the similarities between one captured vector and each stored
/// vector.
pub fn best_similarity_against_store(similarities: &Vec<Scalar>) -> (best: Scalar)
    ensures
        best == peak(similarities@),
{
    let mut best = Scalar::negative_infinity();
    let mut i: usize = 0;
    while i < similarities.len()
        invariant
            i <= similarities.len(),
            peak(similarities@) == peak_from(similarities@, i as int, best),
        decreases similarities.len() - i,
    {
        if similarities[i].gt(&best) {
            best = similarities[i];
        }
        i += 1;
    }
    best
}

/// What the attempt is run with.
#[derive(Debug, Clone, Copy, PartialEq, Eq)]
pub struct EngineConfig {
    /// A similarity at or above this is a match.
    pub similarity_threshold: Scalar,
    /// How long the camera is polled, in nanoseconds.
    pub capture_timeout_nanos: u128,
    /// The pause between two frames, in nanoseconds.
    pub frame_interval_nanos: u128,
    /// Whether the store's key must come from the secret service.
    pub require_secret_service: bool,
}

/// The running figures of the polling loop.
#[derive(Debug, Clone, Copy, PartialEq, Eq)]
pub struct AuthAttempt {
    /// The instant polling ends, in nanoseconds of the caller's clock.
    pub deadline: u128,
    pub frames_captured: usize,
    /// The best similarity seen so far; negative infinity at first.
    pub best_similarity: Scalar,
    pub detected_any_face: bool,
    pub retry_hint_sent: bool,
}

/// Everything the polling loop knows.
#[derive(Debug, Clone, Copy, PartialEq, Eq)]
pub struct Polling {
    pub config: EngineConfig,
    /// The length every enrolled vector has and every captured one must have.
    pub embedding_len: usize,
    pub attempt: AuthAttempt,
}

/// Where the attempt stands: what it has asked for and is waiting on.
#[derive(Debug, Clone, Copy, PartialEq, Eq)]
pub enum AuthState {
    /// Nothing has happened yet.
    Init,
    /// The user is accepted and the configuration is being loaded.
    LoadingConfig,
    /// Policy asks for the secret service; the helper is fetching the key.
    ResolvingSecret(EngineConfig),
    /// The store is being loaded, with or without a key.
    LoadingStore { config: EngineConfig, has_key: bool },
    /// The store proved to be encrypted and no key was at hand; the helper
    /// is fetching it.
    RecoveringSecret(EngineConfig),
    /// The store is sound; camera and extractor are being set up.
    Preparing { config: EngineConfig, embedding_len: usize },
    /// At the head of the polling loop: the clock is being read.
    AwaitingClock(Polling),
    /// A frame is being captured and searched for faces.
    AwaitingFrame(Polling),
    /// Pausing between two frames.
    Sleeping(Polling),
    /// The outcome was handed out.
    Done,
}

/// One face found in a frame.
#[derive(Debug, Clone, PartialEq, Eq)]
pub struct FaceObservation {
    /// The length of the vector extracted for it.
    pub embedding_len: usize,
    /// Its similarity to each enrolled vector, in the store's order.
    pub similarities: Vec<Scalar>,
}

/// What the caller reports back.
#[derive(Debug, PartialEq, Eq)]
pub enum AuthEvent {
    /// The host framework asks to authenticate this user.
    Begin { user: String },
    ConfigLoaded(EngineConfig),
    /// The configuration could not be had; the text says why.
    ConfigFailed(String),
    HelperFinished(Result<HelperResponse, HelperError>),
    StoreLoaded(Result<Vec<EnrolledEmbedding>, AppError>),
    /// Camera and extractor are ready; `now` is the clock's reading.
    Prepared { now: u128 },
    PrepareFailed(AppError),
    /// The clock reads `now`.
    Tick { now: u128 },
    /// A frame was captured and searched; `now` is the clock's reading
    /// afterwards.
    FrameCaptured { faces: Vec<FaceObservation>, now: u128 },
    /// Capturing the frame or searching it failed.
    CaptureFailed(AppError),
    /// The pause is over.
    Slept,
}

/// What the caller is to do next.
#[derive(Debug, PartialEq, Eq)]
pub enum AuthAction {
    LoadConfig,
    /// Run the helper process that fetches the user's key.
    RunHelper,
    /// Load the user's store, with this key if there is one.
    LoadStore { key: Option<Vec<u8>> },
    /// Set up camera and extractor, then read the clock.
    PrepareCapture,
    /// Read the clock.
    CheckDeadline,
    /// Capture one frame and search it for faces, then read the clock.
    CaptureFrame,
    /// Pause for so many nanoseconds.
    Sleep { nanos: u128 },
    /// Hand out the outcome.
    Finish(Result<AuthResult, AuthError>),
}

/// One step of the attempt.
#[derive(Debug, PartialEq, Eq)]
pub struct AuthStep {
    pub state: AuthState,
    /// Whether to tell the user, now, that no face is in view yet.
    pub send_retry_hint: bool,
    pub action: AuthAction,
}

/// What a search through the faces of one frame comes to.
#[derive(Debug, Clone, Copy, PartialEq, Eq)]
pub enum FaceScan {
    /// A face matched, with this similarity.
    Matched(Scalar),
    /// A face's vector has this length, which is not the enrolled one.
    WrongLength(usize),
    /// No face matched; this is the best similarity seen so far.
    Unmatched(Scalar),
}

/// Searches the faces from index `from` on, in order. A vector of another
/// length than the enrolled one ends the search at once, before it is
/// compared with anything. Otherwise a face's score is the best of its
/// similarities; it raises the best seen so far if it is strictly above it,
/// and it ends the search as a match if it is at or above the threshold.
pub open spec fn scan_faces(
    faces: Seq<FaceObservation>,
    from: int,
    embedding_len: usize,
    threshold: Scalar,
    best: Scalar,
) -> FaceScan
    decreases faces.len() - from,
{
    if from < 0 || from >= faces.len() {
        FaceScan::Unmatched(best)
    } else if faces[from].embedding_len != embedding_len {
        FaceScan::WrongLength(faces[from].embedding_len)
    } else {
        let score = peak(faces[from].similarities@);
        if score.spec_ge(&threshold) {
            FaceScan::Matched(score)
        } else if score.spec_gt(&best) {
            scan_faces(faces, from + 1, embedding_len, threshold, score)
        } else {
            scan_faces(faces, from + 1, embedding_len, threshold, best)
        }
    }
}

/// Searches the faces of one frame.
pub fn scan_frame(
    faces: &Vec<FaceObservation>,
    embedding_len: usize,
    threshold: Scalar,
    best: Scalar,
) -> (scan: FaceScan)
    ensures
        scan == scan_faces(faces@, 0, embedding_len, threshold, best),
{
    let mut seen = best;
    let mut i: usize = 0;
    while i < faces.len()
        invariant
            i <= faces.len(),
            scan_faces(faces@, 0, embedding_len, threshold, best) == scan_faces(
                faces@,
                i as int,
                embedding_len,
                threshold,
                seen,
            ),
        decreases faces.len() - i,
    {
        if faces[i].embedding_len != embedding_len {
            return FaceScan::WrongLength(faces[i].embedding_len);
        }
        let score = best_similarity_against_store(&faces[i].similarities);
        if score.gt(&seen) {
            seen = score;
        }
        if score.ge(&threshold) {
            return FaceScan::Matched(score);
        }
        i += 1;
    }
    FaceScan::Unmatched(seen)
}

/// What the attempt says when it is told something it did not ask for.
pub const UNEXPECTED_AUTH_EVENT: &'static str = "unexpected event in authentication attempt";

/// What the attempt says when a key was at hand and the store still asked
/// for one.
pub const KEY_DID_NOT_OPEN_STORE: &'static str =
    "Secret Service key failed to decrypt embedding store";

/// The figures polling starts out with at the clock's reading `now`: the
/// deadline is the capture timeout away, nothing is captured, nothing seen.
pub open spec fn fresh_attempt(config: EngineConfig, now: u128) -> AuthAttempt {
    AuthAttempt {
        deadline: if now + config.capture_timeout_nanos > u128::MAX {
            u128::MAX
        } else {
            (now + config.capture_timeout_nanos) as u128
        },
        frames_captured: 0,
        best_similarity: Scalar { bits: NEG_INFINITY_BITS },
        detected_any_face: false,
        retry_hint_sent: false,
    }
}

/// The outcome when the deadline has passed without a match: no face was
/// ever seen, or faces were seen and none came close enough.
pub open spec fn exhausted(attempt: AuthAttempt) -> AuthResult {
    AuthResult {
        success: false,
        frames_captured: attempt.frames_captured,
        best_similarity: attempt.best_similarity,
        failure_reason: Some(
            if attempt.detected_any_face {
                FailureReason::ThresholdNotReached
            } else {
                FailureReason::NoFaceDetected
            },
        ),
    }
}

/// The outcome when there is nothing enrolled to compare with.
pub open spec fn nothing_enrolled() -> AuthResult {
    AuthResult {
        success: false,
        frames_captured: 0,
        best_similarity: Scalar { bits: NEG_INFINITY_BITS },
        failure_reason: Some(FailureReason::EmbeddingsMissing),
    }
}

/// The attempt with one more frame counted.
pub open spec fn with_next_frame(p: Polling) -> Polling {
    Polling {
        attempt: AuthAttempt {
            frames_captured: if p.attempt.frames_captured < usize::MAX {
                (p.attempt.frames_captured + 1) as usize
            } else {
                p.attempt.frames_captured
            },
            ..p.attempt
        },
        ..p
    }
}

/// The attempt after a frame without faces.
pub open spec fn with_empty_frame(p: Polling) -> Polling {
    Polling { attempt: AuthAttempt { retry_hint_sent: true, ..p.attempt }, ..p }
}

/// The attempt after a frame whose faces did not match and left `best` as
/// the best similarity.
pub open spec fn with_unmatched_faces(p: Polling, best: Scalar) -> Polling {
    Polling {
        attempt: AuthAttempt { detected_any_face: true, best_similarity: best, ..p.attempt },
        ..p
    }
}

/// How long to pause at the clock's reading `now`: the frame interval, but
/// never beyond the deadline.
pub open spec fn pause_nanos(p: Polling, now: u128) -> u128 {
    if p.config.frame_interval_nanos < p.attempt.deadline - now {
        p.config.frame_interval_nanos
    } else {
        (p.attempt.deadline - now) as u128
    }
}

/// Whether the attempt ends with `outcome` as its action.
pub open spec fn finishes_with(step: AuthStep, outcome: AuthResult) -> bool {
    step.state == AuthState::Done && step.action == AuthAction::Finish(
        Ok::<AuthResult, AuthError>(outcome),
    )
}

/// Whether the attempt is aborted with a configuration error of these words.
pub open spec fn aborts_on_config(step: AuthStep, words: Seq<char>) -> bool {
    step.state == AuthState::Done && (step.action matches AuthAction::Finish(
        Err(AuthError::Config(message)),
    ) && message@ == words)
}

/// Whether the attempt is aborted with a framework error of these words.
pub open spec fn aborts_on_framework(step: AuthStep, words: Seq<char>) -> bool {
    step.state == AuthState::Done && (step.action matches AuthAction::Finish(
        Err(AuthError::Pam(message)),
    ) && message@ == words)
}

/// Whether the attempt steps aside because the secret service is
/// unavailable, with these words.
pub open spec fn steps_aside(step: AuthStep, words: Seq<char>) -> bool {
    step.state == AuthState::Done && (step.action matches AuthAction::Finish(
        Err(AuthError::SecretServiceUnavailable(message)),
    ) && message@ == words)
}

/// Whether the attempt is aborted with this error of the store, the camera
/// or the extractor.
pub open spec fn aborts_on(step: AuthStep, err: AppError) -> bool {
    step.state == AuthState::Done && step.action == AuthAction::Finish(
        Err::<AuthResult, AuthError>(AuthError::Core(err)),
    )
}

/// Whether the attempt goes on to `state` with `action`.
pub open spec fn goes_on(step: AuthStep, state: AuthState, action: AuthAction) -> bool {
    step.state == state && step.action == action
}

/// The words with which a failure of the helper process is reported.
pub open spec fn helper_failure(words: Seq<char>) -> Seq<char> {
    "Secret Service helper failed: "@ + words
}

/// The words with which a captured vector of another length than the enrolled one is reported.
pub open spec fn length_mismatch(enrolled: usize, captured: usize) -> Seq<char> {
    "Embedding length mismatch: enrolled "@ + decimal_digits(enrolled as nat) + " vs captured "@
        + decimal_digits(captured as nat)
}

/// Whether `step` is what follows once a frame is dealt with and polling
/// stands at `p`, the clock reading `now`: past the deadline the attempt is
/// exhausted; before it, a pause follows, or the next reading of the clock
/// where no pause is configured.
pub open spec fn continues_after_frame(step: AuthStep, p: Polling, now: u128) -> bool {
    if now >= p.attempt.deadline {
        finishes_with(step, exhausted(p.attempt))
    } else if p.config.frame_interval_nanos > 0 {
        goes_on(step, AuthState::Sleeping(p), AuthAction::Sleep { nanos: pause_nanos(p, now) })
    } else {
        goes_on(step, AuthState::AwaitingClock(p), AuthAction::CheckDeadline)
    }
}

/// Whether `step` is the step the attempt takes when `event` reaches it in
/// `state`.
pub open spec fn auth_moves(state: AuthState, event: AuthEvent, step: AuthStep) -> bool {
    match (state, event) {
        (AuthState::Init, AuthEvent::Begin { user }) => !step.send_retry_hint && if valid_user_name(
            user@,
        ) {
            goes_on(step, AuthState::LoadingConfig, AuthAction::LoadConfig)
        } else {
            step.state == AuthState::Done && (step.action matches AuthAction::Finish(
                Err(AuthError::Core(AppError::InvalidUser { user: named, message })),
            ) && named@ == user@ && message@ == user_name_complaint(user@))
        },
        (AuthState::LoadingConfig, AuthEvent::ConfigLoaded(config)) => !step.send_retry_hint
            && if config.require_secret_service {
            goes_on(step, AuthState::ResolvingSecret(config), AuthAction::RunHelper)
        } else {
            goes_on(
                step,
                AuthState::LoadingStore { config, has_key: false },
                AuthAction::LoadStore { key: None },
            )
        },
        (AuthState::LoadingConfig, AuthEvent::ConfigFailed(words)) => !step.send_retry_hint
            && aborts_on_config(step, words@),
        (AuthState::ResolvingSecret(config), AuthEvent::HelperFinished(outcome)) =>
            !step.send_retry_hint && match outcome {
            Ok(HelperResponse::Key(key)) => goes_on(
                step,
                AuthState::LoadingStore { config, has_key: true },
                AuthAction::LoadStore { key: Some(key) },
            ),
            Ok(HelperResponse::Missing { message }) => finishes_with(step, nothing_enrolled()),
            Err(HelperError::SecretServiceUnavailable(words)) => steps_aside(step, words@),
            Err(HelperError::IpcFailure(words)) => aborts_on_framework(
                step,
                helper_failure(words@),
            ),
        },
        (AuthState::RecoveringSecret(config), AuthEvent::HelperFinished(outcome)) =>
            !step.send_retry_hint && match outcome {
            Ok(HelperResponse::Key(key)) => goes_on(
                step,
                AuthState::LoadingStore { config, has_key: true },
                AuthAction::LoadStore { key: Some(key) },
            ),
            Ok(HelperResponse::Missing { message }) => finishes_with(step, nothing_enrolled()),
            Err(HelperError::SecretServiceUnavailable(words)) => steps_aside(step, words@),
            Err(HelperError::IpcFailure(words)) => aborts_on_framework(
                step,
                helper_failure(words@),
            ),
        },
        (AuthState::LoadingStore { config, has_key }, AuthEvent::StoreLoaded(loaded)) =>
            !step.send_retry_hint && match loaded {
            Err(AppError::EncryptedStoreRequiresKey { path }) => if has_key {
                steps_aside(step, KEY_DID_NOT_OPEN_STORE@)
            } else {
                goes_on(step, AuthState::RecoveringSecret(config), AuthAction::RunHelper)
            },
            Err(err) => aborts_on(step, err),
            Ok(records) => if records@.len() == 0 {
                finishes_with(step, nothing_enrolled())
            } else {
                match enrollment_fault(embedding_lengths(records@)) {
                    Some(fault) => aborts_on_config(step, fault),
                    None => goes_on(
                        step,
                        AuthState::Preparing {
                            config,
                            embedding_len: records@[0].embedding@.len() as usize,
                        },
                        AuthAction::PrepareCapture,
                    ),
                }
            },
        },
        (AuthState::Preparing { config, embedding_len }, AuthEvent::Prepared { now }) =>
            !step.send_retry_hint && goes_on(
            step,
            AuthState::AwaitingClock(
                Polling { config, embedding_len, attempt: fresh_attempt(config, now) },
            ),
            AuthAction::CheckDeadline,
        ),
        (AuthState::Preparing { config, embedding_len }, AuthEvent::PrepareFailed(err)) =>
            !step.send_retry_hint && aborts_on(step, err),
        (AuthState::AwaitingClock(p), AuthEvent::Tick { now }) => !step.send_retry_hint
            && if now < p.attempt.deadline {
            goes_on(step, AuthState::AwaitingFrame(with_next_frame(p)), AuthAction::CaptureFrame)
        } else {
            finishes_with(step, exhausted(p.attempt))
        },
        (AuthState::AwaitingFrame(p), AuthEvent::CaptureFailed(err)) => !step.send_retry_hint
            && aborts_on(step, err),
        (AuthState::AwaitingFrame(p), AuthEvent::FrameCaptured { faces, now }) => if faces@.len()
            == 0 {
            step.send_retry_hint == !p.attempt.retry_hint_sent && continues_after_frame(
                step,
                with_empty_frame(p),
                now,
            )
        } else {
            !step.send_retry_hint && match scan_faces(
                faces@,
                0,
                p.embedding_len,
                p.config.similarity_threshold,
                p.attempt.best_similarity,
            ) {
                FaceScan::WrongLength(captured) => aborts_on_config(
                    step,
                    length_mismatch(p.embedding_len, captured),
                ),
                FaceScan::Matched(similarity) => finishes_with(
                    step,
                    AuthResult {
                        success: true,
                        frames_captured: p.attempt.frames_captured,
                        best_similarity: similarity,
                        failure_reason: None,
                    },
                ),
                FaceScan::Unmatched(best) => continues_after_frame(
                    step,
                    with_unmatched_faces(p, best),
                    now,
                ),
            }
        },
        (AuthState::Sleeping(p), AuthEvent::Slept) => !step.send_retry_hint && goes_on(
            step,
            AuthState::AwaitingClock(p),
            AuthAction::CheckDeadline,
        ),
        _ => !step.send_retry_hint && aborts_on_framework(step, UNEXPECTED_AUTH_EVENT@),
    }
}

fn proceed(state: AuthState, action: AuthAction) -> (step: AuthStep)
    ensures
        !step.send_retry_hint,
        goes_on(step, state, action),
{
    AuthStep { state, send_retry_hint: false, action }
}

fn finish(outcome: Result<AuthResult, AuthError>) -> (step: AuthStep)
    ensures
        !step.send_retry_hint,
        step.state == AuthState::Done,
        step.action == AuthAction::Finish(outcome),
{
    AuthStep { state: AuthState::Done, send_retry_hint: false, action: AuthAction::Finish(outcome) }
}

fn unexpected() -> (step: AuthStep)
    ensures
        !step.send_retry_hint,
        aborts_on_framework(step, UNEXPECTED_AUTH_EVENT@),
{
    finish(Err(AuthError::Pam(UNEXPECTED_AUTH_EVENT.to_owned())))
}

fn helper_failed(words: &str) -> (step: AuthStep)
    ensures
        !step.send_retry_hint,
        aborts_on_framework(step, helper_failure(words@)),
{
    let mut m = "Secret Service helper failed: ".to_owned();
    m.append(words);
    finish(Err(AuthError::Pam(m)))
}

fn nothing_to_compare() -> (step: AuthStep)
    ensures
        !step.send_retry_hint,
        finishes_with(step, nothing_enrolled()),
{
    finish(Ok(AuthResult::failure(FailureReason::EmbeddingsMissing, Scalar::negative_infinity(), 0)))
}

fn give_up(attempt: &AuthAttempt) -> (step: AuthStep)
    ensures
        !step.send_retry_hint,
        finishes_with(step, exhausted(*attempt)),
{
    let reason = if attempt.detected_any_face {
        FailureReason::ThresholdNotReached
    } else {
        FailureReason::NoFaceDetected
    };
    finish(Ok(AuthResult::failure(reason, attempt.best_similarity, attempt.frames_captured)))
}

fn after_frame(p: Polling, now: u128, hint: bool) -> (step: AuthStep)
    ensures
        step.send_retry_hint == hint,
        continues_after_frame(step, p, now),
{
    if now >= p.attempt.deadline {
        let done = give_up(&p.attempt);
        AuthStep { state: done.state, send_retry_hint: hint, action: done.action }
    } else if p.config.frame_interval_nanos > 0 {
        let remaining = p.attempt.deadline - now;
        let nanos = if p.config.frame_interval_nanos < remaining {
            p.config.frame_interval_nanos
        } else {
            remaining
        };
        AuthStep {
            state: AuthState::Sleeping(p),
            send_retry_hint: hint,
            action: AuthAction::Sleep { nanos },
        }
    } else {
        AuthStep {
            state: AuthState::AwaitingClock(p),
            send_retry_hint: hint,
            action: AuthAction::CheckDeadline,
        }
    }
}

fn on_store(config: EngineConfig, has_key: bool, loaded: Result<Vec<EnrolledEmbedding>, AppError>) -> (step:
    AuthStep)
    ensures
        auth_moves(
            AuthState::LoadingStore { config, has_key },
            AuthEvent::StoreLoaded(loaded),
            step,
        ),
{
    match loaded {
        Err(AppError::EncryptedStoreRequiresKey { path }) => {
            if has_key {
                finish(Err(AuthError::SecretServiceUnavailable(KEY_DID_NOT_OPEN_STORE.to_owned())))
            } else {
                proceed(AuthState::RecoveringSecret(config), AuthAction::RunHelper)
            }
        },
        Err(err) => finish(Err(AuthError::Core(err))),
        Ok(records) => {
            if records.len() == 0 {
                return nothing_to_compare();
            }
            match verify_enrolled_embeddings(&records) {
                Err(err) => finish(Err(err)),
                Ok(embedding_len) => proceed(
                    AuthState::Preparing { config, embedding_len },
                    AuthAction::PrepareCapture,
                ),
            }
        },
    }
}

fn on_frame(p: Polling, faces: Vec<FaceObservation>, now: u128) -> (step: AuthStep)
    ensures
        auth_moves(AuthState::AwaitingFrame(p), AuthEvent::FrameCaptured { faces, now }, step),
{
    if faces.len() == 0 {
        let hint = !p.attempt.retry_hint_sent;
        let next = Polling { attempt: AuthAttempt { retry_hint_sent: true, ..p.attempt }, ..p };
        return after_frame(next, now, hint);
    }
    match scan_frame(&faces, p.embedding_len, p.config.similarity_threshold, p.attempt.best_similarity) {
        FaceScan::WrongLength(captured) => {
            let mut m = "Embedding length mismatch: enrolled ".to_owned();
            let e = decimal(p.embedding_len as u64);
            m.append(e.as_str());
            m.append(" vs captured ");
            let c = decimal(captured as u64);
            m.append(c.as_str());
            finish(Err(AuthError::Config(m)))
        },
        FaceScan::Matched(similarity) => finish(
            Ok(AuthResult::success(similarity, p.attempt.frames_captured)),
        ),
        FaceScan::Unmatched(best) => {
            let next = Polling {
                attempt: AuthAttempt {
                    detected_any_face: true,
                    best_similarity: best,
                    ..p.attempt
                },
                ..p
            };
            after_frame(next, now, false)
        },
    }
}

fn on_helper(config: EngineConfig, outcome: Result<HelperResponse, HelperError>) -> (step: AuthStep)
    ensures
        auth_moves(AuthState::RecoveringSecret(config), AuthEvent::HelperFinished(outcome), step),
        auth_moves(AuthState::ResolvingSecret(config), AuthEvent::HelperFinished(outcome), step),
{
    match outcome {
        Ok(HelperResponse::Key(key)) => proceed(
            AuthState::LoadingStore { config, has_key: true },
            AuthAction::LoadStore { key: Some(key) },
        ),
        Ok(HelperResponse::Missing { message }) => nothing_to_compare(),
        Err(HelperError::SecretServiceUnavailable(words)) => finish(
            Err(AuthError::SecretServiceUnavailable(words)),
        ),
        Err(HelperError::IpcFailure(words)) => helper_failed(words.as_str()),
    }
}

/// The first state of every attempt.
pub fn auth_start() -> (state: AuthState)
    ensures
        state == AuthState::Init,
{
    AuthState::Init
}

/// One step of the attempt: what follows when `event` reaches it in `state`.
pub fn auth_step(state: AuthState, event: AuthEvent) -> (step: AuthStep)
    ensures
        auth_moves(state, event, step),
{
    match state {
        AuthState::Init => match event {
            AuthEvent::Begin { user } => match validate_user_name(user.as_str()) {
                Ok(()) => proceed(AuthState::LoadingConfig, AuthAction::LoadConfig),
                Err(err) => finish(Err(AuthError::Core(err))),
            },
            _ => unexpected(),
        },
        AuthState::LoadingConfig => match event {
            AuthEvent::ConfigLoaded(config) => {
                if config.require_secret_service {
                    proceed(AuthState::ResolvingSecret(config), AuthAction::RunHelper)
                } else {
                    proceed(
                        AuthState::LoadingStore { config, has_key: false },
                        AuthAction::LoadStore { key: None },
                    )
                }
            },
            AuthEvent::ConfigFailed(words) => finish(Err(AuthError::Config(words))),
            _ => unexpected(),
        },
        AuthState::ResolvingSecret(config) => match event {
            AuthEvent::HelperFinished(outcome) => on_helper(config, outcome),
            _ => unexpected(),
        },
        AuthState::RecoveringSecret(config) => match event {
            AuthEvent::HelperFinished(outcome) => on_helper(config, outcome),
            _ => unexpected(),
        },
        AuthState::LoadingStore { config, has_key } => match event {
            AuthEvent::StoreLoaded(loaded) => on_store(config, has_key, loaded),
            _ => unexpected(),
        },
        AuthState::Preparing { config, embedding_len } => match event {
            AuthEvent::Prepared { now } => {
                let deadline = now.saturating_add(config.capture_timeout_nanos);
                let attempt = AuthAttempt {
                    deadline,
                    frames_captured: 0,
                    best_similarity: Scalar::negative_infinity(),
                    detected_any_face: false,
                    retry_hint_sent: false,
                };
                proceed(
                    AuthState::AwaitingClock(Polling { config, embedding_len, attempt }),
                    AuthAction::CheckDeadline,
                )
            },
            AuthEvent::PrepareFailed(err) => finish(Err(AuthError::Core(err))),
            _ => unexpected(),
        },
        AuthState::AwaitingClock(p) => match event {
            AuthEvent::Tick { now } => {
                if now < p.attempt.deadline {
                    let frames = if p.attempt.frames_captured < usize::MAX {
                        p.attempt.frames_captured + 1
                    } else {
                        p.attempt.frames_captured
                    };
                    let next = Polling {
                        attempt: AuthAttempt { frames_captured: frames, ..p.attempt },
                        ..p
                    };
                    proceed(AuthState::AwaitingFrame(next), AuthAction::CaptureFrame)
                } else {
                    give_up(&p.attempt)
                }
            },
            _ => unexpected(),
        },
        AuthState::AwaitingFrame(p) => match event {
            AuthEvent::FrameCaptured { faces, now } => on_frame(p, faces, now),
            AuthEvent::CaptureFailed(err) => finish(Err(AuthError::Core(err))),
            _ => unexpected(),
        },
        AuthState::Sleeping(p) => match event {
            AuthEvent::Slept => proceed(AuthState::AwaitingClock(p), AuthAction::CheckDeadline),
            _ => unexpected(),
        },
        AuthState::Done => unexpected(),
    }
}

/// The figures of the polling loop, in the states that have them.
pub open spec fn polling_of(state: AuthState) -> Option<Polling> {
    match state {
        AuthState::AwaitingClock(p) => Some(p),
        AuthState::AwaitingFrame(p) => Some(p),
        AuthState::Sleeping(p) => Some(p),
        _ => None,
    }
}

/// What a search through the faces of a frame can come to. A match is the
/// score of a face of the enrolled length, at or above the threshold, before
/// which every face had the enrolled length and stayed below the threshold.
/// A vector of another length is reported unless a face before it matched.
/// And where nothing matched, every face had the enrolled length and stayed
/// below the threshold.
pub proof fn lemma_scan_verdict(
    faces: Seq<FaceObservation>,
    from: int,
    embedding_len: usize,
    threshold: Scalar,
    best: Scalar,
)
    requires
        0 <= from <= faces.len(),
    ensures
        match scan_faces(faces, from, embedding_len, threshold, best) {
            FaceScan::Matched(score) => exists|k: int|
                from <= k < faces.len() && #[trigger] faces[k].embedding_len == embedding_len
                    && score == peak(faces[k].similarities@) && score.spec_ge(&threshold)
                    && all_unmatched(faces, from, k, embedding_len, threshold),
            FaceScan::WrongLength(found) => found != embedding_len && exists|k: int|
                from <= k < faces.len() && #[trigger] faces[k].embedding_len == found
                    && all_unmatched(faces, from, k, embedding_len, threshold),
            FaceScan::Unmatched(_) => all_unmatched(
                faces,
                from,
                faces.len() as int,
                embedding_len,
                threshold,
            ),
        },
    decreases faces.len() - from,
{
    if from < faces.len() {
        if faces[from].embedding_len != embedding_len {
            assert(all_unmatched(faces, from, from, embedding_len, threshold));
        } else {
            let score = peak(faces[from].similarities@);
            if score.spec_ge(&threshold) {
                assert(all_unmatched(faces, from, from, embedding_len, threshold));
            } else {
                let seen = if score.spec_gt(&best) {
                    score
                } else {
                    best
                };
                lemma_scan_verdict(faces, from + 1, embedding_len, threshold, seen);
                match scan_faces(faces, from + 1, embedding_len, threshold, seen) {
                    FaceScan::Matched(s) => {
                        let k = choose|k: int|
                            from + 1 <= k < faces.len() && #[trigger] faces[k].embedding_len
                                == embedding_len && s == peak(faces[k].similarities@)
                                && s.spec_ge(&threshold) && all_unmatched(
                                faces,
                                from + 1,
                                k,
                                embedding_len,
                                threshold,
                            );
                        assert(all_unmatched(faces, from, k, embedding_len, threshold));
                    },
                    FaceScan::WrongLength(found) => {
                        let k = choose|k: int|
                            from + 1 <= k < faces.len() && #[trigger] faces[k].embedding_len
                                == found && all_unmatched(
                                faces,
                                from + 1,
                                k,
                                embedding_len,
                                threshold,
                            );
                        assert(all_unmatched(faces, from, k, embedding_len, threshold));
                    },
                    FaceScan::Unmatched(_) => {
                        assert(all_unmatched(
                            faces,
                            from,
                            faces.len() as int,
                            embedding_len,
                            threshold,
                        ));
                    },
                }
            }
        }
    }
}

/// Whether every face from index `from` up to `to` has the enrolled length
/// and a score below the threshold.
pub open spec fn all_unmatched(
    faces: Seq<FaceObservation>,
    from: int,
    to: int,
    embedding_len: usize,
    threshold: Scalar,
) -> bool {
    forall|j: int|
        from <= j < to ==> (#[trigger] faces[j]).embedding_len == embedding_len && !peak(
            faces[j].similarities@,
        ).spec_ge(&threshold)
}

/// A captured vector of another length than the enrolled one is never
/// matched: unless a face before it in the same frame has matched already,
/// the attempt is aborted with a configuration error.
pub proof fn lemma_wrong_length_aborts(
    p: Polling,
    faces: Vec<FaceObservation>,
    now: u128,
    step: AuthStep,
    k: int,
)
    requires
        auth_moves(AuthState::AwaitingFrame(p), AuthEvent::FrameCaptured { faces, now }, step),
        0 <= k < faces@.len(),
        faces@[k].embedding_len != p.embedding_len,
        all_unmatched(faces@, 0, k, p.embedding_len, p.config.similarity_threshold),
    ensures
        step.state == AuthState::Done,
        step.action matches AuthAction::Finish(Err(AuthError::Config(_))),
{
    lemma_scan_verdict(
        faces@,
        0,
        p.embedding_len,
        p.config.similarity_threshold,
        p.attempt.best_similarity,
    );
    match scan_faces(
        faces@,
        0,
        p.embedding_len,
        p.config.similarity_threshold,
        p.attempt.best_similarity,
    ) {
        FaceScan::Matched(score) => {
            let m = choose|m: int|
                0 <= m < faces@.len() && #[trigger] faces@[m].embedding_len == p.embedding_len
                    && score == peak(faces@[m].similarities@) && score.spec_ge(
                    &p.config.similarity_threshold,
                ) && all_unmatched(faces@, 0, m, p.embedding_len, p.config.similarity_threshold);
            if m < k {
                assert(faces@[m].embedding_len == p.embedding_len && !peak(
                    faces@[m].similarities@,
                ).spec_ge(&p.config.similarity_threshold));
            } else {
                assert(faces@[k].embedding_len == p.embedding_len);
            }
        },
        FaceScan::WrongLength(_) => {},
        FaceScan::Unmatched(_) => {
            assert(faces@[k].embedding_len == p.embedding_len);
        },
    }
}

/// Success is declared only while a frame is awaited, only for a similarity
/// at or above the threshold, and it reports the frames captured so far.
pub proof fn lemma_success_meets_threshold(state: AuthState, event: AuthEvent, step: AuthStep)
    requires
        auth_moves(state, event, step),
        step.action matches AuthAction::Finish(Ok(outcome)) && outcome.success,
    ensures
        state matches AuthState::AwaitingFrame(p) && (step.action matches AuthAction::Finish(
            Ok(outcome),
        ) && outcome.best_similarity.spec_ge(&p.config.similarity_threshold)
            && outcome.frames_captured == p.attempt.frames_captured && outcome.failure_reason
            is None),
        event is FrameCaptured,
{
    match (state, event) {
        (AuthState::AwaitingFrame(p), AuthEvent::FrameCaptured { faces, now }) => {
            lemma_scan_verdict(
                faces@,
                0,
                p.embedding_len,
                p.config.similarity_threshold,
                p.attempt.best_similarity,
            );
        },
        _ => {},
    }
}

/// The attempt never sleeps past the deadline: a pause is positive, no
/// longer than the frame interval, and over by the deadline.
pub proof fn lemma_pause_ends_by_deadline(state: AuthState, event: AuthEvent, step: AuthStep)
    requires
        auth_moves(state, event, step),
        step.action is Sleep,
    ensures
        state is AwaitingFrame,
        event matches AuthEvent::FrameCaptured { now, .. } && (step.state matches AuthState::Sleeping(
            p,
        ) && (step.action matches AuthAction::Sleep { nanos } && 0 < nanos
            <= p.config.frame_interval_nanos && now + nanos <= p.attempt.deadline)),
{
}

/// The hint that no face is in view is given once: only on a frame without
/// faces, only if it was not given before, and from then on it counts as
/// given for as long as polling lasts.
pub proof fn lemma_hint_is_given_once(state: AuthState, event: AuthEvent, step: AuthStep)
    requires
        auth_moves(state, event, step),
    ensures
        step.send_retry_hint ==> (state matches AuthState::AwaitingFrame(p)
            && !p.attempt.retry_hint_sent) && (event matches AuthEvent::FrameCaptured { faces, .. }
            && faces@.len() == 0),
        step.send_retry_hint ==> (polling_of(step.state) matches Some(q) ==> q.attempt.retry_hint_sent),
        polling_of(state) matches Some(p) ==> (polling_of(step.state) matches Some(q) ==> (
        p.attempt.retry_hint_sent ==> q.attempt.retry_hint_sent)),
        (state matches AuthState::AwaitingFrame(p) && !p.attempt.retry_hint_sent) && (
        event matches AuthEvent::FrameCaptured { faces, .. } && faces@.len() == 0)
            ==> step.send_retry_hint,
{
}

/// An outcome is handed out exactly on the step into the final state, and
/// the final state is never left.
pub proof fn lemma_finish_is_final(state: AuthState, event: AuthEvent, step: AuthStep)
    requires
        auth_moves(state, event, step),
    ensures
        step.action is Finish <==> step.state == AuthState::Done,
        state == AuthState::Done ==> step.state == AuthState::Done,
{
}

/// Frames are counted as they are captured: the count rises by one with
/// every capture that is asked for, and stays as it is on every other step
/// of the loop. Deadline, enrolled length and configuration never change.
pub proof fn lemma_frames_count_captures(state: AuthState, event: AuthEvent, step: AuthStep)
    requires
        auth_moves(state, event, step),
        polling_of(state) is Some,
        polling_of(step.state) is Some,
    ensures
        ({
            let p = polling_of(state)->0;
            let q = polling_of(step.state)->0;
            &&& q.config == p.config
            &&& q.embedding_len == p.embedding_len
            &&& q.attempt.deadline == p.attempt.deadline
            &&& step.action is CaptureFrame ==> q.attempt.frames_captured == if
                p.attempt.frames_captured < usize::MAX {
                p.attempt.frames_captured + 1
            } else {
                p.attempt.frames_captured as int
            }
            &&& !(step.action is CaptureFrame) ==> q.attempt.frames_captured
                == p.attempt.frames_captured
            &&& step.action is CaptureFrame <==> state is AwaitingClock
        }),
{
}

/// The best similarity only rises: while it is a number, each step of the
/// loop leaves it a number at or above what it was.
pub proof fn lemma_best_similarity_only_rises(state: AuthState, event: AuthEvent, step: AuthStep)
    requires
        auth_moves(state, event, step),
        polling_of(state) matches Some(p) && !p.attempt.best_similarity.spec_is_nan(),
        polling_of(step.state) is Some,
    ensures
        ({
            let p = polling_of(state)->0;
            let q = polling_of(step.state)->0;
            &&& !q.attempt.best_similarity.spec_is_nan()
            &&& q.attempt.best_similarity.spec_ge(&p.attempt.best_similarity)
            &&& p.attempt.detected_any_face ==> q.attempt.detected_any_face
        }),
{
    match (state, event) {
        (AuthState::AwaitingFrame(p), AuthEvent::FrameCaptured { faces, now }) => {
            if faces@.len() > 0 {
                lemma_scan_keeps_best(
                    faces@,
                    0,
                    p.embedding_len,
                    p.config.similarity_threshold,
                    p.attempt.best_similarity,
                );
            }
        },
        _ => {},
    }
}

/// Where a search ends without a match, the best similarity it leaves is a
/// number at or above the one it started out from.
pub proof fn lemma_scan_keeps_best(
    faces: Seq<FaceObservation>,
    from: int,
    embedding_len: usize,
    threshold: Scalar,
    best: Scalar,
)
    requires
        0 <= from <= faces.len(),
        !best.spec_is_nan(),
    ensures
        scan_faces(faces, from, embedding_len, threshold, best) matches FaceScan::Unmatched(seen)
            ==> !seen.spec_is_nan() && seen.spec_ge(&best),
    decreases faces.len() - from,
{
    if from < faces.len() && faces[from].embedding_len == embedding_len {
        let score = peak(faces[from].similarities@);
        if !score.spec_ge(&threshold) {
            if score.spec_gt(&best) {
                lemma_scan_keeps_best(faces, from + 1, embedding_len, threshold, score);
            } else {
                lemma_scan_keeps_best(faces, from + 1, embedding_len, threshold, best);
            }
        }
    }
}

/// A user name with a path separator in it ends the attempt on its first
/// step, before configuration, helper or store are touched.
pub proof fn lemma_bad_user_ends_attempt(user: String, at: int, step: AuthStep)
    requires
        0 <= at < user@.len(),
        user@[at] == '/',
        auth_moves(AuthState::Init, AuthEvent::Begin { user }, step),
    ensures
        step.state == AuthState::Done,
        step.action matches AuthAction::Finish(Err(AuthError::Core(AppError::InvalidUser { .. }))),
{
    crate::enrollment::lemma_separator_is_rejected(user@, at);
}

/// A helper that finds no key for the user means that nothing is enrolled:
/// whether the helper ran because policy asked for it or because the store
/// proved to be encrypted, the attempt ends without a frame captured, as it
/// does for a user without a store.
pub proof fn lemma_missing_key_is_nothing_enrolled(
    state: AuthState,
    message: String,
    step: AuthStep,
)
    requires
        state is ResolvingSecret || state is RecoveringSecret,
        auth_moves(
            state,
            AuthEvent::HelperFinished(Ok(HelperResponse::Missing { message })),
            step,
        ),
    ensures
        step.state == AuthState::Done,
        step.action == AuthAction::Finish(Ok(nothing_enrolled())),
        !step.send_retry_hint,
{
}

/// How far an attempt has come: a state that waits on the helper stands
/// before every state that follows its answer.
pub open spec fn auth_stage(state: AuthState) -> nat {
    match state {
        AuthState::Init => 0,
        AuthState::LoadingConfig => 1,
        AuthState::ResolvingSecret(_) => 2,
        AuthState::LoadingStore { has_key, .. } => if has_key {
            4
        } else {
            2
        },
        AuthState::RecoveringSecret(_) => 3,
        AuthState::Preparing { .. } => 5,
        AuthState::AwaitingClock(_) => 6,
        AuthState::AwaitingFrame(_) => 6,
        AuthState::Sleeping(_) => 6,
        AuthState::Done => 7,
    }
}

/// Whether the attempt waits on the helper in `state`.
pub open spec fn awaits_helper(state: AuthState) -> bool {
    state is ResolvingSecret || state is RecoveringSecret
}

/// The helper runs at most once in an attempt. An attempt never falls back
/// to an earlier stage. The helper is sent for exactly on the step into a
/// state that waits on it, and its answer takes the attempt past both such
/// states: none of them is entered again.
pub proof fn lemma_helper_runs_at_most_once(state: AuthState, event: AuthEvent, step: AuthStep)
    requires
        auth_moves(state, event, step),
    ensures
        auth_stage(state) <= auth_stage(step.state),
        step.action is RunHelper <==> awaits_helper(step.state),
        awaits_helper(step.state) ==> !awaits_helper(state),
        awaits_helper(state) ==> forall|other: AuthState|
            awaits_helper(other) ==> auth_stage(step.state) > #[trigger] auth_stage(other),
{
}

/// What the host framework is told at the end.
#[derive(Debug, Clone, Copy, PartialEq, Eq, Structural)]
pub enum PamReturnCode {
    /// The user is authenticated.
    Success,
    /// The user is not authenticated; another factor may be tried.
    AuthErr,
    /// This factor steps aside as if it had not been asked.
    Ignore,
    /// Something is broken.
    SystemErr,
}

/// The two ways a message can be shown to the user.
#[derive(Debug, Clone, Copy, PartialEq, Eq, Structural)]
pub enum PamMessageStyle {
    TextInfo,
    ErrorMsg,
}

/// The end of an attempt as the host framework sees it: the return code, and
/// what to tell the user, if anything.
#[derive(Debug, Clone, PartialEq, Eq)]
pub struct PamVerdict {
    pub code: PamReturnCode,
    pub prompt: Option<(PamMessageStyle, String)>,
}

/// What the user is told while no face is in view.
pub const RETRY_HINT: &'static str =
    "No face detected yet; align with the camera while we retry...";

/// What the user is told when the secret service is unavailable.
pub const SECRET_SERVICE_FALLBACK_PROMPT: &'static str =
    "Face authentication unavailable. Falling back to password.";

/// What the user is told when no face was seen before the deadline.
pub const NO_FACE_PROMPT: &'static str =
    "No face detected before timeout; stay in frame and retry.";

/// What the user is told when faces were seen but none came close enough.
pub const BELOW_THRESHOLD_PROMPT: &'static str =
    "Face detected but similarity below threshold; please retry.";

/// What the user is told after a match.
pub open spec fn success_prompt(user: Seq<char>, service: Seq<char>) -> Seq<char> {
    "Face authentication succeeded for user '"@ + user + "' via service '"@ + service + "'."@
}

/// What the user is told when nothing is enrolled.
pub open spec fn not_enrolled_prompt(user: Seq<char>) -> Seq<char> {
    "Face authentication unavailable: no enrolled embeddings for '"@ + user + "'."@
}

/// The return code an outcome comes to: success for a match, an
/// authentication error for a decided failure, the request to be ignored
/// where the secret service is unavailable, and a system error for every
/// other abort.
pub open spec fn return_code(outcome: Result<AuthResult, AuthError>) -> PamReturnCode {
    match outcome {
        Ok(result) => if result.success {
            PamReturnCode::Success
        } else {
            PamReturnCode::AuthErr
        },
        Err(AuthError::SecretServiceUnavailable(_)) => PamReturnCode::Ignore,
        Err(_) => PamReturnCode::SystemErr,
    }
}

/// What the user is told at the end, and how. A failure without a reason
/// counts as a similarity below the threshold; an abort is not put before
/// the user unless it is the secret service that is unavailable.
pub open spec fn closing_prompt(
    user: Seq<char>,
    service: Seq<char>,
    outcome: Result<AuthResult, AuthError>,
) -> Option<(PamMessageStyle, Seq<char>)> {
    match outcome {
        Ok(result) => if result.success {
            Some((PamMessageStyle::TextInfo, success_prompt(user, service)))
        } else {
            match result.failure_reason {
                Some(FailureReason::EmbeddingsMissing) => Some(
                    (PamMessageStyle::ErrorMsg, not_enrolled_prompt(user)),
                ),
                Some(FailureReason::NoFaceDetected) => Some(
                    (PamMessageStyle::ErrorMsg, NO_FACE_PROMPT@),
                ),
                _ => Some((PamMessageStyle::ErrorMsg, BELOW_THRESHOLD_PROMPT@)),
            }
        },
        Err(AuthError::SecretServiceUnavailable(_)) => Some(
            (PamMessageStyle::ErrorMsg, SECRET_SERVICE_FALLBACK_PROMPT@),
        ),
        Err(_) => None,
    }
}

/// Turns the outcome of an attempt into what the host framework is told and
/// what the user is shown.
pub fn conclude(user: &str, service: &str, outcome: &Result<AuthResult, AuthError>) -> (verdict:
    PamVerdict)
    ensures
        verdict.code == return_code(*outcome),
        match closing_prompt(user@, service@, *outcome) {
            Some((style, words)) => verdict.prompt matches Some((shown, text)) && shown == style
                && text@ == words,
            None => verdict.prompt is None,
        },
{
    match outcome {
        Ok(result) => {
            if result.success {
                let mut m = "Face authentication succeeded for user '".to_owned();
                m.append(user);
                m.append("' via service '");
                m.append(service);
                m.append("'.");
                PamVerdict {
                    code: PamReturnCode::Success,
                    prompt: Some((PamMessageStyle::TextInfo, m)),
                }
            } else {
                let words = match result.failure_reason {
                    Some(FailureReason::EmbeddingsMissing) => {
                        let mut m =
                            "Face authentication unavailable: no enrolled embeddings for '".to_owned();
                        m.append(user);
                        m.append("'.");
                        m
                    },
                    Some(FailureReason::NoFaceDetected) => NO_FACE_PROMPT.to_owned(),
                    _ => BELOW_THRESHOLD_PROMPT.to_owned(),
                };
                PamVerdict {
                    code: PamReturnCode::AuthErr,
                    prompt: Some((PamMessageStyle::ErrorMsg, words)),
                }
            }
        },
        Err(AuthError::SecretServiceUnavailable(_)) => PamVerdict {
            code: PamReturnCode::Ignore,
            prompt: Some((PamMessageStyle::ErrorMsg, SECRET_SERVICE_FALLBACK_PROMPT.to_owned())),
        },
        Err(_) => PamVerdict { code: PamReturnCode::SystemErr, prompt: None },
    }
}

/// What the host framework is told when it asks to set credentials: there
/// is nothing to set, and that is a success.
pub fn setcred_code() -> (code: PamReturnCode)
    ensures
        code == PamReturnCode::Success,
{
    PamReturnCode::Success
}

/// An unavailable secret service is never a hard failure: the framework is
/// asked to ignore this factor, and only then.
pub proof fn lemma_unavailable_service_is_soft(outcome: Result<AuthResult, AuthError>)
    ensures
        return_code(outcome) == PamReturnCode::Ignore <==> (outcome matches Err(
            AuthError::SecretServiceUnavailable(_),
        )),
        return_code(outcome) == PamReturnCode::Success <==> (outcome matches Ok(result)
            && result.success),
{
}

/// Which of the variables a session needs are missing from the environment
/// of the calling process.
#[derive(Debug, Clone, Copy, PartialEq, Eq, Structural)]
pub struct HelperEnvNeeds {
    pub display: bool,
    pub runtime: bool,
    pub dbus: bool,
}

/// Whether a variable with this value is as good as missing.
pub open spec fn is_missing(value: Option<&str>) -> bool {
    match value {
        Some(v) => v@.len() == 0,
        None => true,
    }
}

fn missing(value: Option<&str>) -> (gone: bool)
    ensures
        gone == is_missing(value),
{
    match value {
        Some(v) => v.unicode_len() == 0,
        None => true,
    }
}

impl HelperEnvNeeds {
    /// What is missing, given the values of `DISPLAY`, `XDG_RUNTIME_DIR` and
    /// `DBUS_SESSION_BUS_ADDRESS`: a variable that is unset or empty.
    pub fn detect(display: Option<&str>, runtime_dir: Option<&str>, bus_address: Option<&str>) -> (needs:
        HelperEnvNeeds)
        ensures
            needs.display == is_missing(display),
            needs.runtime == is_missing(runtime_dir),
            needs.dbus == is_missing(bus_address),
    {
        HelperEnvNeeds {
            display: missing(display),
            runtime: missing(runtime_dir),
            dbus: missing(bus_address),
        }
    }

    /// Whether anything is missing.
    pub open spec fn spec_any(&self) -> bool {
        self.display || self.runtime || self.dbus
    }

    /// Whether anything is missing.
    #[verifier::when_used_as_spec(spec_any)]
    pub fn any(&self) -> (some: bool)
        ensures
            some == self.spec_any(),
    {
        self.display || self.runtime || self.dbus
    }

    /// Whether the variable of this name fills a gap.
    pub open spec fn spec_accepts(&self, key: Seq<char>) -> bool {
        if key == "DISPLAY"@ || key == "WAYLAND_DISPLAY"@ {
            self.display
        } else if key == "XDG_RUNTIME_DIR"@ {
            self.runtime
        } else if key == "DBUS_SESSION_BUS_ADDRESS"@ {
            self.dbus
        } else {
            false
        }
    }

    /// Whether the variable of this name fills a gap: a display fills a
    /// missing display, the runtime directory and the bus address fill their
    /// own, and nothing else fills anything.
    pub fn accepts(&self, key: &str) -> (wanted: bool)
        ensures
            wanted == self.spec_accepts(key@),
    {
        if str_eq(key, "DISPLAY") || str_eq(key, "WAYLAND_DISPLAY") {
            self.display
        } else if str_eq(key, "XDG_RUNTIME_DIR") {
            self.runtime
        } else if str_eq(key, "DBUS_SESSION_BUS_ADDRESS") {
            self.dbus
        } else {
            false
        }
    }
}

/// The variables the helper process is started with on top of its own.
#[derive(Debug, Clone, PartialEq, Eq)]
pub struct HelperEnvOverrides {
    pub pairs: Vec<(String, String)>,
}

impl HelperEnvOverrides {
    /// The overrides made of these name-value pairs.
    pub fn from_pairs(pairs: Vec<(String, String)>) -> (overrides: HelperEnvOverrides)
        ensures
            overrides.pairs == pairs,
    {
        HelperEnvOverrides { pairs }
    }
}

/// The pairs of `pairs` from index `from` on whose names fill a gap.
pub open spec fn accepted_pairs(
    needs: HelperEnvNeeds,
    pairs: Seq<(Seq<char>, Seq<char>)>,
    from: int,
) -> Seq<(Seq<char>, Seq<char>)>
    decreases pairs.len() - from,
{
    if from < 0 || from >= pairs.len() {
        seq![]
    } else if needs.spec_accepts(pairs[from].0) {
        seq![pairs[from]] + accepted_pairs(needs, pairs, from + 1)
    } else {
        accepted_pairs(needs, pairs, from + 1)
    }
}

/// Works out what the helper's environment borrows from the user's login
/// session: of the variables the session stands for, those that are missing
/// from the environment of the calling process. Nothing is borrowed where
/// nothing is missing, where no session is known, or where the session has
/// none of what is missing.
pub fn prepare_helper_env(needs: &HelperEnvNeeds, session: Option<&SessionEnvironment>) -> (env:
    Option<HelperEnvOverrides>)
    ensures
        match session {
            Some(found) if needs.spec_any() => {
                let wanted = accepted_pairs(*needs, environment_pairs(*found), 0);
                if wanted.len() == 0 {
                    env is None
                } else {
                    env matches Some(overrides) && pair_views(overrides.pairs@) == wanted
                }
            },
            _ => env is None,
        },
{
    if !needs.any() {
        return None;
    }
    let found = match session {
        Some(s) => s,
        None => {
            return None;
        },
    };
    let mut all = found.env_pairs();
    let ghost offered = environment_pairs(*found);
    let mut kept: Vec<(String, String)> = Vec::new();
    let total = all.len();
    let mut i: usize = 0;
    while i < total
        invariant
            i <= total,
            total == all.len(),
            pair_views(all@) == offered,
            pair_views(kept@) + accepted_pairs(*needs, offered, i as int) == accepted_pairs(
                *needs,
                offered,
                0,
            ),
        decreases total - i,
    {
        assert(offered[i as int] == (all@[i as int].0@, all@[i as int].1@));
        if needs.accepts(all[i].0.as_str()) {
            let name = all[i].0.clone();
            let value = all[i].1.clone();
            let ghost before = pair_views(kept@);
            kept.push((name, value));
            assert(pair_views(kept@) == before + seq![offered[i as int]]);
            assert(before + seq![offered[i as int]] + accepted_pairs(*needs, offered, i + 1)
                == before + (seq![offered[i as int]] + accepted_pairs(*needs, offered, i + 1)));
        }
        i += 1;
    }
    assert(pair_views(kept@) + Seq::<(Seq<char>, Seq<char>)>::empty() == pair_views(kept@));
    if kept.len() == 0 {
        None
    } else {
        Some(HelperEnvOverrides::from_pairs(kept))
    }
}

} // verus!
