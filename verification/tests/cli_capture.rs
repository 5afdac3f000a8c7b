use chissu_pam::auto_enroll::{
    auto_capture_args, build_temp_paths, cleanup_dir, cleanup_file, comparison_config,
    enrollment_config, ensure_faces_detected, extraction_config, removal_config,
    resolve_model_paths, resolve_target_user_inner, DirRemoval, FileRemoval,
};
use chissu_pam::capture::{build_capture_config, display_device, CaptureConfig, DeviceLocator};
use chissu_pam::cli::{
    log_level, CaptureArgs, Cli, Commands, EnrollArgs, FaceCompareArgs, FaceEnrollArgs,
    FaceExtractArgs, FaceRemoveArgs, OutputMode, DEFAULT_PIXEL_FORMAT, DEFAULT_WARMUP_FRAMES,
};
use chissu_pam::config::{CaptureDefaults, FaceModelDefaults};
use chissu_pam::errors::AppError;

fn base_args() -> CaptureArgs {
    CaptureArgs {
        device: None,
        pixel_format: None,
        width: None,
        height: None,
        exposure: None,
        gain: None,
        auto_exposure: false,
        auto_gain: false,
        warmup_frames: None,
        output: None,
    }
}

fn defaults(device: Option<&str>, pixel: Option<&str>, warmup: Option<u32>) -> CaptureDefaults {
    CaptureDefaults {
        device: device.map(|d| d.to_string()),
        pixel_format: pixel.map(|p| p.to_string()),
        warmup_frames: warmup,
    }
}

#[test]
fn capture_cli_values_override_config_defaults() {
    let mut args = base_args();
    args.device = Some("/dev/video9".into());
    args.pixel_format = Some("GREY".into());
    args.warmup_frames = Some(7);

    let config = build_capture_config(&args, &defaults(Some("/dev/video1"), Some("Y8"), Some(3)));

    match config.device {
        DeviceLocator::Path(path) => assert_eq!(path, "/dev/video9"),
        DeviceLocator::Index(_) => panic!("expected path"),
    }
    assert_eq!(config.pixel_format, "GREY");
    assert_eq!(config.warmup_frames, 7);
}

#[test]
fn capture_config_defaults_apply_when_cli_missing() {
    let args = base_args();
    let config = build_capture_config(&args, &defaults(Some("/dev/video3"), Some("Y8"), Some(6)));

    match config.device {
        DeviceLocator::Path(path) => assert_eq!(path, "/dev/video3"),
        other => panic!("unexpected device: {:?}", other),
    }
    assert_eq!(config.pixel_format, "Y8");
    assert_eq!(config.warmup_frames, 6);
}

#[test]
fn capture_built_in_defaults_cover_missing_config() {
    let args = base_args();
    let config = build_capture_config(&args, &defaults(None, None, None));

    match config.device {
        DeviceLocator::Index(idx) => assert_eq!(idx, 0),
        other => panic!("unexpected device: {:?}", other),
    }
    assert_eq!(config.pixel_format, DEFAULT_PIXEL_FORMAT);
    assert_eq!(config.warmup_frames, DEFAULT_WARMUP_FRAMES);
}

#[test]
fn capture_config_carries_the_remaining_flags() {
    let mut args = base_args();
    args.width = Some(640);
    args.height = Some(480);
    args.exposure = Some(-3);
    args.gain = Some(12);
    args.auto_exposure = true;
    args.output = Some("out.png".into());
    let config: CaptureConfig = build_capture_config(&args, &defaults(None, None, None));
    assert_eq!(config.width, Some(640));
    assert_eq!(config.height, Some(480));
    assert_eq!(config.exposure, Some(-3));
    assert_eq!(config.gain, Some(12));
    assert!(config.auto_exposure);
    assert!(!config.auto_gain);
    assert_eq!(config.output.as_deref(), Some("out.png"));
}

#[test]
fn device_locator_reads_numbers_and_paths() {
    assert_eq!(DeviceLocator::from_option(None), DeviceLocator::Index(0));
    assert_eq!(DeviceLocator::from_option(Some("2".into())), DeviceLocator::Index(2));
    assert_eq!(DeviceLocator::from_option(Some("+7".into())), DeviceLocator::Index(7));
    assert_eq!(DeviceLocator::from_option(Some("007".into())), DeviceLocator::Index(7));
    assert_eq!(
        DeviceLocator::from_option(Some("4294967295".into())),
        DeviceLocator::Index(u32::MAX)
    );
    assert_eq!(
        DeviceLocator::from_option(Some("4294967296".into())),
        DeviceLocator::Path("4294967296".into())
    );
    assert_eq!(DeviceLocator::from_option(Some("".into())), DeviceLocator::Path("".into()));
    assert_eq!(DeviceLocator::from_option(Some("+".into())), DeviceLocator::Path("+".into()));
    assert_eq!(DeviceLocator::from_option(Some("-1".into())), DeviceLocator::Path("-1".into()));
    assert_eq!(DeviceLocator::from_option(Some(" 1".into())), DeviceLocator::Path(" 1".into()));
    assert_eq!(
        DeviceLocator::from_option(Some("/dev/video2".into())),
        DeviceLocator::Path("/dev/video2".into())
    );
}

#[test]
fn device_locator_agrees_with_the_standard_parser() {
    for text in ["0", "12", "+3", "-3", "", "+", "1a", "99999999999", "٣", "0x10", "4294967295"] {
        let expected = match text.parse::<u32>() {
            Ok(index) => DeviceLocator::Index(index),
            Err(_) => DeviceLocator::Path(text.to_string()),
        };
        assert_eq!(DeviceLocator::from_option(Some(text.to_string())), expected, "{text:?}");
    }
}

#[test]
fn device_display_names_the_device_file() {
    assert_eq!(DeviceLocator::Index(0).display(), "/dev/video0");
    assert_eq!(DeviceLocator::Index(42).display(), "/dev/video42");
    assert_eq!(DeviceLocator::Path("/dev/cam".into()).display(), "/dev/cam");
    assert_eq!(display_device(&DeviceLocator::Index(3)), "/dev/video3");
}

#[test]
fn resolve_model_paths_prefers_cli_then_config() {
    let defaults = FaceModelDefaults {
        landmark_model: Some("/etc/landmark.dat".into()),
        encoder_model: Some("/etc/encoder.dat".into()),
    };
    let args = EnrollArgs {
        user: None,
        store_dir: None,
        device: None,
        landmark_model: Some("/tmp/landmark.dat".into()),
        encoder_model: None,
        jitters: 1,
    };

    let (landmark, encoder) = resolve_model_paths(&args, &defaults);
    assert_eq!(landmark.unwrap(), "/tmp/landmark.dat");
    assert_eq!(encoder.unwrap(), "/etc/encoder.dat");
}

#[test]
fn resolves_user_defaults_and_allows_root_override() {
    assert_eq!(resolve_target_user_inner(None, false, "alice").unwrap(), "alice");
    assert!(resolve_target_user_inner(Some("bob"), false, "alice").is_err());
    assert_eq!(resolve_target_user_inner(Some("rooted"), true, "root").unwrap(), "rooted");
}

#[test]
fn only_root_overrides_the_enrollment_user() {
    let err = resolve_target_user_inner(Some("bob"), false, "alice").unwrap_err();
    assert_eq!(
        err,
        AppError::InvalidUser {
            user: "bob".into(),
            message: "only root may override the enrollment user".into(),
        }
    );
    assert_eq!(resolve_target_user_inner(None, true, "root").unwrap(), "root");
}

#[test]
fn output_mode_follows_the_json_flag() {
    let cli = Cli { json: true, verbose: 0, command: Commands::Doctor };
    assert_eq!(cli.output_mode(), OutputMode::Json);
    let cli = Cli { json: false, verbose: 2, command: Commands::Doctor };
    assert_eq!(cli.output_mode(), OutputMode::Human);
    assert_eq!(OutputMode::from_json_flag(true), OutputMode::Json);
    assert_eq!(OutputMode::from_json_flag(false), OutputMode::Human);
}

#[test]
fn log_level_rises_with_verbosity() {
    assert_eq!(log_level(0), "info");
    assert_eq!(log_level(1), "debug");
    assert_eq!(log_level(2), "trace");
    assert_eq!(log_level(255), "trace");
}

#[test]
fn temporary_paths_lie_under_the_base() {
    let (capture, features) = build_temp_paths("/tmp/chissu-pam-x", "20250101T000000.000Z");
    assert_eq!(capture, "/tmp/chissu-pam-x/capture-20250101T000000.000Z.png");
    assert_eq!(features, "/tmp/chissu-pam-x/features-20250101T000000.000Z.json");
    let (capture, _) = build_temp_paths("/tmp/base/", "s");
    assert_eq!(capture, "/tmp/base/capture-s.png");
}

#[test]
fn auto_capture_leaves_everything_but_device_and_output_to_defaults() {
    let args = auto_capture_args(&Some("/dev/video5".to_string()), "/tmp/c.png");
    assert_eq!(args.device.as_deref(), Some("/dev/video5"));
    assert_eq!(args.output.as_deref(), Some("/tmp/c.png"));
    assert_eq!(args.pixel_format, None);
    assert_eq!(args.warmup_frames, None);
    assert!(!args.auto_exposure && !args.auto_gain);
    let args = auto_capture_args(&None, "/tmp/c.png");
    assert_eq!(args.device, None);
}

#[test]
fn a_frame_without_faces_is_not_enrolled() {
    assert!(ensure_faces_detected(1, "/tmp/f.json").is_ok());
    assert_eq!(
        ensure_faces_detected(0, "/tmp/f.json").unwrap_err(),
        AppError::EmbeddingValidation {
            path: "/tmp/f.json".into(),
            message: "no faces detected in captured frame".into(),
        }
    );
}

#[test]
fn cleanup_logs_what_happened_to_temporary_files() {
    let mut logs = Vec::new();
    assert!(cleanup_file("/tmp/a.png", &mut logs, "captured frame", &FileRemoval::Removed));
    assert!(!cleanup_file("/tmp/b.png", &mut logs, "captured frame", &FileRemoval::NotFound));
    assert!(!cleanup_file(
        "/tmp/c.png",
        &mut logs,
        "descriptor payload",
        &FileRemoval::Failed("denied".into())
    ));
    assert_eq!(
        logs,
        vec![
            "Deleted temporary captured frame /tmp/a.png".to_string(),
            "Failed to delete temporary descriptor payload /tmp/c.png: denied".to_string(),
        ]
    );
}

#[test]
fn cleanup_logs_what_happened_to_the_temporary_directory() {
    let mut logs = Vec::new();
    cleanup_dir("/tmp/d", &mut logs, &DirRemoval::Removed);
    cleanup_dir("/tmp/d", &mut logs, &DirRemoval::NotFound);
    cleanup_dir("/tmp/d", &mut logs, &DirRemoval::NotEmpty);
    cleanup_dir("/tmp/d", &mut logs, &DirRemoval::Failed("busy".into()));
    assert_eq!(
        logs,
        vec![
            "Removed temporary directory /tmp/d".to_string(),
            "Temporary directory /tmp/d not empty; leaving in place".to_string(),
            "Failed to remove temporary directory /tmp/d: busy".to_string(),
        ]
    );
}

#[test]
fn arguments_become_configurations() {
    let extract = extraction_config(&FaceExtractArgs {
        image: "i.png".into(),
        landmark_model: Some("l.dat".into()),
        encoder_model: None,
        output: Some("o.json".into()),
        jitters: 5,
    });
    assert_eq!(extract.image, "i.png");
    assert_eq!(extract.landmark_model.as_deref(), Some("l.dat"));
    assert_eq!(extract.encoder_model, None);
    assert_eq!(extract.output.as_deref(), Some("o.json"));
    assert_eq!(extract.jitters, 5);

    let enroll = enrollment_config(&FaceEnrollArgs {
        user: "alice".into(),
        embedding: "f.json".into(),
        store_dir: Some("/s".into()),
    });
    assert_eq!(enroll.user, "alice");
    assert_eq!(enroll.embedding, "f.json");
    assert_eq!(enroll.store_dir.as_deref(), Some("/s"));

    let remove = removal_config(
        &FaceRemoveArgs {
            user: "alice".into(),
            embedding_id: vec!["a".into(), "b".into()],
            all: false,
            store_dir: Some("/ignored".into()),
        },
        Some("/resolved".into()),
    );
    assert_eq!(remove.user, "alice");
    assert_eq!(remove.embedding_ids, vec!["a".to_string(), "b".to_string()]);
    assert!(!remove.remove_all);
    assert_eq!(remove.store_dir.as_deref(), Some("/resolved"));

    let compare = comparison_config(&FaceCompareArgs {
        input: "in.json".into(),
        compare_targets: vec!["t1.json".into(), "t2.json".into()],
    });
    assert_eq!(compare.input, "in.json");
    assert_eq!(compare.compare_targets, vec!["t1.json".to_string(), "t2.json".to_string()]);
}
