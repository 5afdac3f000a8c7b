//! What the command-line tool shows to people.
//!
//! Printing is the caller's part, and so is the JSON that is printed
//! instead where it is asked for. The lines of text are made here.
use crate::auto_enroll::AutoEnrollOutcome;
use crate::capture::CaptureOutcome;
use crate::comparer::FaceComparisonOutcome;
use crate::enrollment::{FaceEnrollmentOutcome, FaceRemovalOutcome};
use crate::errors::AppError;
use crate::extractor::FaceExtractionOutcome;
use crate::keyring::KeyringCheckSummary;
use crate::text::{decimal, decimal_digits, text_views};
use vstd::prelude::*;
use vstd::string::StringExecFns;

verus! {

/// A copy of `logs` with `last` behind it.
fn logs_and(logs: &Vec<String>, last: String) -> (lines: Vec<String>)
    ensures
        text_views(lines@) == text_views(logs@).push(last@),
{
    let mut lines: Vec<String> = Vec::new();
    let mut i: usize = 0;
    while i < logs.len()
        invariant
            i <= logs.len(),
            text_views(lines@) == text_views(logs@).take(i as int),
        decreases logs.len() - i,
    {
        let ghost before = text_views(lines@);
        lines.push(logs[i].clone());
        assert(text_views(lines@) == before.push(logs@[i as int]@));
        assert(text_views(logs@).take(i + 1) == text_views(logs@).take(i as int).push(
            text_views(logs@)[i as int],
        ));
        i += 1;
    }
    assert(text_views(logs@).take(logs@.len() as int) == text_views(logs@));
    let ghost before = text_views(lines@);
    lines.push(last);
    assert(text_views(lines@) == before.push(last@));
    lines
}

fn copy_logs(logs: &Vec<String>) -> (lines: Vec<String>)
    ensures
        text_views(lines@) == text_views(logs@),
{
    let mut lines: Vec<String> = Vec::new();
    let mut i: usize = 0;
    while i < logs.len()
        invariant
            i <= logs.len(),
            text_views(lines@) == text_views(logs@).take(i as int),
        decreases logs.len() - i,
    {
        let ghost before = text_views(lines@);
        lines.push(logs[i].clone());
        assert(text_views(lines@) == before.push(logs@[i as int]@));
        assert(text_views(logs@).take(i + 1) == text_views(logs@).take(i as int).push(
            text_views(logs@)[i as int],
        ));
        i += 1;
    }
    assert(text_views(logs@).take(logs@.len() as int) == text_views(logs@));
    lines
}

/// A capture: what was logged, then where the frame went.
pub fn render_success(outcome: &CaptureOutcome) -> (lines: Vec<String>)
    ensures
        text_views(lines@) == text_views(outcome.logs@).push(
            "Capture successful: "@ + outcome.summary.output_path@,
        ),
{
    let mut last = "Capture successful: ".to_owned();
    last.append(outcome.summary.output_path.as_str());
    logs_and(&outcome.logs, last)
}

/// An extraction: what was logged, then where the faces went and how many
/// there are.
pub fn render_face_success(outcome: &FaceExtractionOutcome) -> (lines: Vec<String>)
    ensures
        text_views(lines@) == text_views(outcome.logs@).push(
            "Feature extraction successful: "@ + outcome.summary.output_path@ + " (faces: "@
                + decimal_digits(outcome.summary.num_faces as nat) + ")"@,
        ),
{
    let mut last = "Feature extraction successful: ".to_owned();
    last.append(outcome.summary.output_path.as_str());
    last.append(" (faces: ");
    let n = decimal(outcome.summary.num_faces as u64);
    last.append(n.as_str());
    last.append(")");
    logs_and(&outcome.logs, last)
}

/// A comparison: what was logged.
pub fn render_face_compare(outcome: &FaceComparisonOutcome) -> (lines: Vec<String>)
    ensures
        text_views(lines@) == text_views(outcome.logs@),
{
    copy_logs(&outcome.logs)
}

/// An enrollment: what was logged, then how many faces went where.
pub fn render_face_enroll(outcome: &FaceEnrollmentOutcome) -> (lines: Vec<String>)
    ensures
        text_views(lines@) == text_views(outcome.logs@).push(
            "Enrollment successful: "@ + decimal_digits(outcome.added@.len()) + " descriptor(s) added to "@
                + outcome.store_path@,
        ),
{
    let mut last = "Enrollment successful: ".to_owned();
    let n = decimal(outcome.added.len() as u64);
    last.append(n.as_str());
    last.append(" descriptor(s) added to ");
    last.append(outcome.store_path.as_str());
    logs_and(&outcome.logs, last)
}

/// An automatic enrollment: how many faces were enrolled for whom, and
/// where the store is.
pub fn render_auto_enroll(outcome: &AutoEnrollOutcome) -> (lines: Vec<String>)
    ensures
        lines@.len() == 2,
        lines@[0]@ == "Auto enrollment successful: "@ + decimal_digits(
            outcome.enrollment.added@.len(),
        ) + " descriptor(s) added for user "@ + outcome.enrollment.user@,
        lines@[1]@ == "Encrypted store: "@ + outcome.enrollment.store_path@,
{
    let mut first = "Auto enrollment successful: ".to_owned();
    let n = decimal(outcome.enrollment.added.len() as u64);
    first.append(n.as_str());
    first.append(" descriptor(s) added for user ");
    first.append(outcome.enrollment.user.as_str());
    let mut second = "Encrypted store: ".to_owned();
    second.append(outcome.enrollment.store_path.as_str());
    let mut lines: Vec<String> = Vec::new();
    lines.push(first);
    lines.push(second);
    lines
}

/// A removal: what was logged, then how many faces went and how many stay.
pub fn render_face_remove(outcome: &FaceRemovalOutcome) -> (lines: Vec<String>)
    ensures
        text_views(lines@) == text_views(outcome.logs@).push(
            "Removal successful: removed "@ + decimal_digits(outcome.removed_ids@.len())
                + " descriptor(s); remaining "@ + decimal_digits(outcome.remaining as nat),
        ),
{
    let mut last = "Removal successful: removed ".to_owned();
    let n = decimal(outcome.removed_ids.len() as u64);
    last.append(n.as_str());
    last.append(" descriptor(s); remaining ");
    let m = decimal(outcome.remaining as u64);
    last.append(m.as_str());
    logs_and(&outcome.logs, last)
}

/// The cause that an error carries along, if it does.
pub open spec fn cause_of(err: AppError) -> Option<Seq<char>> {
    match err {
        AppError::DeviceOpen { source, .. } => Some(source@),
        AppError::ImageDecode { source, .. } => Some(source@),
        AppError::Io(source) => Some(source@),
        AppError::FeatureWrite { source, .. } => Some(source@),
        AppError::FeatureRead { source, .. } => Some(source@),
        AppError::Serialization(source) => Some(source@),
        AppError::ConfigRead { source, .. } => Some(source@),
        _ => None,
    }
}

/// The lines that report an error: an unavailable secret service in its
/// own words, every other error as `error:` and its message, followed by
/// `cause:` and the cause where the error carries one.
pub open spec fn error_lines(err: AppError) -> Seq<Seq<char>> {
    match err {
        AppError::SecretServiceUnavailable { user, service, message } => seq![
            "Secret Service unavailable for user '"@ + user@ + "' (service '"@ + service@
                + "'): "@ + message@,
        ],
        _ => match cause_of(err) {
            Some(cause) => seq!["error: "@ + err.message_text(), "cause: "@ + cause],
            None => seq!["error: "@ + err.message_text()],
        },
    }
}

fn cause(err: &AppError) -> (found: Option<String>)
    ensures
        match cause_of(*err) {
            Some(text) => found matches Some(copy) && copy@ == text,
            None => found is None,
        },
{
    match err {
        AppError::DeviceOpen { source, .. } => Some(source.clone()),
        AppError::ImageDecode { source, .. } => Some(source.clone()),
        AppError::Io(source) => Some(source.clone()),
        AppError::FeatureWrite { source, .. } => Some(source.clone()),
        AppError::FeatureRead { source, .. } => Some(source.clone()),
        AppError::Serialization(source) => Some(source.clone()),
        AppError::ConfigRead { source, .. } => Some(source.clone()),
        _ => None,
    }
}

/// The lines that report an error.
pub fn render_error(err: &AppError) -> (lines: Vec<String>)
    ensures
        text_views(lines@) == error_lines(*err),
{
    let mut lines: Vec<String> = Vec::new();
    match err {
        AppError::SecretServiceUnavailable { user, service, message } => {
            let mut line = "Secret Service unavailable for user '".to_owned();
            line.append(user.as_str());
            line.append("' (service '");
            line.append(service.as_str());
            line.append("'): ");
            line.append(message.as_str());
            lines.push(line);
            assert(text_views(lines@) =~= error_lines(*err));
        },
        _ => {
            let mut line = "error: ".to_owned();
            let message = err.human_message();
            line.append(message.as_str());
            lines.push(line);
            match cause(err) {
                Some(text) => {
                    let mut second = "cause: ".to_owned();
                    second.append(text.as_str());
                    lines.push(second);
                    assert(text_views(lines@) =~= error_lines(*err));
                },
                None => {
                    assert(text_views(lines@) =~= error_lines(*err));
                },
            }
        },
    }
    lines
}

/// A keyring check: for whom the secret service answers.
pub fn render_keyring_check(summary: &KeyringCheckSummary) -> (line: String)
    ensures
        line@ == "Secret Service available for user '"@ + summary.user@ + "' (service '"@
            + summary.service@ + "')"@,
{
    let mut line = "Secret Service available for user '".to_owned();
    line.append(summary.user.as_str());
    line.append("' (service '");
    line.append(summary.service.as_str());
    line.append("')");
    line
}

} // verus!
