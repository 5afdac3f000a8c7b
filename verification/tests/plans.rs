use chissu_pam::comparer::{comparison_logs, FaceComparisonScore, ShownScore};
use chissu_pam::errors::AppError;
use chissu_pam::extractor::{
    summarize_extraction, BoundingBox, FaceEmbeddingRecord, FaceExtractionConfig, FaceModelPaths,
};
use chissu_pam::logind::{SessionProperties, SessionRecord};
use chissu_pam::scalar::Scalar;
use chissu_pam::store::{
    delete_outcome, write_start, write_step, StoreRemoval, WriteAction, WriteEvent, WriteState,
    STORE_FILE_MODE,
};

fn run_write(has_parent: bool, fail_at: Option<usize>) -> (Vec<String>, Result<(), AppError>) {
    let (mut state, mut action) = write_start(has_parent);
    let mut trail = Vec::new();
    for step in 0..20 {
        let name = match &action {
            WriteAction::CreateDirectory => "CreateDirectory",
            WriteAction::CreateTemporary => "CreateTemporary",
            WriteAction::Write => "Write",
            WriteAction::Flush => "Flush",
            WriteAction::Sync => "Sync",
            WriteAction::Rename => "Rename",
            WriteAction::Restrict => "Restrict",
            WriteAction::Finish(_) => "Finish",
        };
        if let WriteAction::Finish(outcome) = action {
            assert_eq!(state, WriteState::Done);
            return (trail, outcome);
        }
        trail.push(name.to_string());
        let event = if fail_at == Some(step) {
            WriteEvent::Failed("disk full".into())
        } else {
            WriteEvent::Succeeded
        };
        let next = write_step("/s/alice.json", "/s", state, event);
        state = next.0;
        action = next.1;
    }
    panic!("the writing did not end: {trail:?}");
}

#[test]
fn a_store_is_written_beside_itself_and_renamed_into_place() {
    let (trail, outcome) = run_write(true, None);
    assert_eq!(
        trail,
        vec![
            "CreateDirectory",
            "CreateTemporary",
            "Write",
            "Flush",
            "Sync",
            "Rename",
            "Restrict"
        ]
    );
    assert_eq!(outcome, Ok(()));
    let (trail, outcome) = run_write(false, None);
    assert_eq!(trail[0], "CreateTemporary");
    assert_eq!(trail.len(), 6);
    assert_eq!(outcome, Ok(()));
    assert_eq!(STORE_FILE_MODE, 0o600);
}

#[test]
fn the_first_step_that_fails_ends_the_writing() {
    for fail_at in 0..7 {
        let (trail, outcome) = run_write(true, Some(fail_at));
        assert_eq!(trail.len(), fail_at + 1);
        let at = if fail_at == 0 { "/s" } else { "/s/alice.json" };
        assert_eq!(
            outcome,
            Err(AppError::FeatureWrite { path: at.into(), source: "disk full".into() })
        );
        if fail_at < 5 {
            assert!(!trail.contains(&"Rename".to_string()));
        }
    }
}

#[test]
fn a_finished_writing_stays_finished() {
    let unasked = || {
        WriteAction::Finish(Err(AppError::FeatureWrite {
            path: "/s/a.json".into(),
            source: "unexpected event after the store was written".into(),
        }))
    };
    let (state, action) =
        write_step("/s/a.json", "/s", WriteState::Done, WriteEvent::Failed("late".into()));
    assert_eq!(state, WriteState::Done);
    assert_eq!(action, unasked());
    let (state, action) = write_step("/s/a.json", "/s", WriteState::Done, WriteEvent::Succeeded);
    assert_eq!(state, WriteState::Done);
    assert_eq!(action, unasked());
}

#[test]
fn a_failed_writing_reports_no_success_afterwards() {
    let (state, action) =
        write_step("/s/a.json", "/s", WriteState::Writing, WriteEvent::Failed("disk full".into()));
    assert_eq!(state, WriteState::Done);
    assert_eq!(
        action,
        WriteAction::Finish(Err(AppError::FeatureWrite {
            path: "/s/a.json".into(),
            source: "disk full".into(),
        }))
    );
    let (state, action) = write_step("/s/a.json", "/s", state, WriteEvent::Succeeded);
    assert_eq!(state, WriteState::Done);
    assert!(matches!(action, WriteAction::Finish(Err(AppError::FeatureWrite { .. }))));
}

#[test]
fn success_is_reported_when_the_permissions_are_set() {
    let (state, action) =
        write_step("/s/a.json", "/s", WriteState::Restricting, WriteEvent::Succeeded);
    assert_eq!(state, WriteState::Done);
    assert_eq!(action, WriteAction::Finish(Ok(())));
}

#[test]
fn session_properties_are_normalized() {
    let record = SessionRecord::from_properties(SessionProperties {
        id: "c2".into(),
        seat: Some(" seat0 ".into()),
        tty: Some("/dev/tty2".into()),
        state: Some("".into()),
        class: None,
        active: None,
        display: Some("  ".into()),
        session_type: Some("wayland\n".into()),
    });
    assert_eq!(
        record,
        SessionRecord {
            id: "c2".into(),
            seat: Some("seat0".into()),
            tty: Some("tty2".into()),
            state: "unknown".into(),
            class: "unknown".into(),
            active: false,
            display: None,
            session_type: Some("wayland".into()),
        }
    );
    let record = SessionRecord::from_properties(SessionProperties {
        id: "1".into(),
        seat: None,
        tty: Some(" ".into()),
        state: Some(" active ".into()),
        class: Some("user".into()),
        active: Some(true),
        display: Some(":0".into()),
        session_type: None,
    });
    assert_eq!(record.tty, None);
    assert_eq!(record.state, "active");
    assert_eq!(record.class, "user");
    assert!(record.active);
    assert_eq!(record.display.as_deref(), Some(":0"));
}

fn face(len: usize) -> FaceEmbeddingRecord {
    FaceEmbeddingRecord {
        bounding_box: BoundingBox { left: 0, top: 0, right: 1, bottom: 1 },
        embedding: vec![Scalar::from_bits(1.0f64.to_bits()); len],
    }
}

#[test]
fn an_extraction_is_summarised() {
    let config = FaceExtractionConfig {
        image: "in.png".into(),
        landmark_model: None,
        encoder_model: None,
        output: None,
        jitters: 3,
    };
    let models = FaceModelPaths { landmark: "l.dat".into(), encoder: "e.dat".into() };
    let outcome =
        summarize_extraction(&config, &models, 640, 480, vec![face(128), face(128)], "out.json");
    assert!(outcome.summary.success);
    assert_eq!(outcome.summary.image_path, "in.png");
    assert_eq!(outcome.summary.output_path, "out.json");
    assert_eq!(outcome.summary.num_faces, 2);
    assert_eq!(outcome.summary.faces, vec![face(128), face(128)]);
    assert_eq!(outcome.summary.landmark_model, "l.dat");
    assert_eq!(outcome.summary.encoder_model, "e.dat");
    assert_eq!(outcome.summary.num_jitters, 3);
    assert_eq!(
        outcome.logs,
        vec![
            "Loaded image in.png (640x480)".to_string(),
            "Detected 2 face(s)".to_string(),
            "Embedding vector length: 128".to_string(),
            "Saved embedding data to out.json".to_string(),
        ]
    );
    let outcome = summarize_extraction(&config, &models, 1, 1, Vec::new(), "out.json");
    assert_eq!(
        outcome.logs,
        vec![
            "Loaded image in.png (1x1)".to_string(),
            "Detected 0 face(s)".to_string(),
            "Saved embedding data to out.json".to_string(),
        ]
    );
}

#[test]
fn a_comparison_is_logged_target_by_target() {
    let shown = vec![
        ShownScore {
            score: FaceComparisonScore {
                target_path: "a.json".into(),
                best_similarity: Scalar::from_bits(1.0f64.to_bits()),
                input_face_index: 0,
                target_face_index: 2,
            },
            similarity: "1.0000".into(),
        },
        ShownScore {
            score: FaceComparisonScore {
                target_path: "b.json".into(),
                best_similarity: Scalar::from_bits(0.0f64.to_bits()),
                input_face_index: 1,
                target_face_index: 0,
            },
            similarity: "0.0000".into(),
        },
    ];
    assert_eq!(
        comparison_logs(2, "input.json", &shown),
        vec![
            "Loaded 2 face(s) from input.json".to_string(),
            "Similarity metric: cosine".to_string(),
            "Target a.json => cosine similarity 1.0000 (input face #0, target face #2)"
                .to_string(),
            "Target b.json => cosine similarity 0.0000 (input face #1, target face #0)"
                .to_string(),
        ]
    );
    assert_eq!(comparison_logs(0, "i", &Vec::new()).len(), 2);
}

#[test]
fn deleting_a_store_that_is_not_there_succeeds() {
    assert_eq!(delete_outcome("/s/a.json", StoreRemoval::Missing), Ok(()));
    assert_eq!(delete_outcome("/s/a.json", StoreRemoval::Removed), Ok(()));
    assert_eq!(
        delete_outcome("/s/a.json", StoreRemoval::Failed("denied".into())),
        Err(AppError::FeatureWrite { path: "/s/a.json".into(), source: "denied".into() })
    );
}
