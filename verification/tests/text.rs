use chissu_pam::auto_enroll::AutoEnrollOutcome;
use chissu_pam::capture::{CaptureOutcome, CaptureSummary, DeviceSummary, NegotiatedFormat};
use chissu_pam::comparer::FaceComparisonOutcome;
use chissu_pam::enrollment::{EnrollmentRecord, FaceEnrollmentOutcome, FaceRemovalOutcome};
use chissu_pam::errors::AppError;
use chissu_pam::extractor::{FaceExtractionOutcome, FaceExtractionSummary};
use chissu_pam::keyring::KeyringCheckSummary;
use chissu_pam::output::{
    render_auto_enroll, render_error, render_face_compare, render_face_enroll,
    render_face_remove, render_face_success, render_keyring_check, render_success,
};
use chissu_pam::text::{
    before_char, chars_of, contains, decimal, decimal_signed, decimal_wide, join, join_path,
    octal, parse_u32, split_lines, split_whitespace, starts_with, str_eq, strip_prefix, trim,
    trim_end_matches,
};

fn texts(lists: Vec<Vec<char>>) -> Vec<String> {
    lists.into_iter().map(|l| l.into_iter().collect()).collect()
}

#[test]
fn numbers_are_written_as_the_standard_library_writes_them() {
    for n in [0u64, 1, 9, 10, 11, 99, 100, 12345, u32::MAX as u64, u64::MAX] {
        assert_eq!(decimal(n), n.to_string());
        assert_eq!(octal(n), format!("{n:o}"));
    }
    for n in [0u128, 10, u64::MAX as u128 + 1, u128::MAX] {
        assert_eq!(decimal_wide(n), n.to_string());
    }
    for n in [0i64, -1, 1, -10, i64::MIN, i64::MAX, i32::MIN as i64] {
        assert_eq!(decimal_signed(n), n.to_string());
    }
}

#[test]
fn numbers_are_read_as_the_standard_library_reads_them() {
    for text in [
        "0", "1", "+1", "-1", "00", "+", "-", "", " 1", "1 ", "4294967295", "4294967296",
        "99999999999999999999999", "1_000", "1e3", "0x1", "１",
    ] {
        assert_eq!(parse_u32(text), text.parse::<u32>().ok(), "{text:?}");
    }
    assert_eq!(parse_u32("42"), Some(42));
}

#[test]
fn trimming_agrees_with_the_standard_library() {
    for text in [
        "",
        " ",
        "a",
        " a ",
        "\t\n a b \r\n",
        "\u{a0}x\u{2003}",
        "\u{85}y\u{3000}",
        "\u{200b}z\u{200b}",
        "  \u{1680}  ",
        "x\u{0b}\u{0c}",
    ] {
        assert_eq!(trim(text), text.trim(), "{text:?}");
    }
    assert_eq!(trim_end_matches("/run/user/1///", '/'), "/run/user/1");
    assert_eq!(trim_end_matches("///", '/'), "");
    assert_eq!(trim_end_matches("a/b", '/'), "a/b");
}

#[test]
fn searching_agrees_with_the_standard_library() {
    let hays = ["", "a", "pam_chissu", "xpam_chissux", "pam_chiss", "aaab", "ab/dev/"];
    let needles = ["", "a", "pam_chissu", "ab", "aab", "/dev/", "b"];
    for hay in hays {
        for needle in needles {
            assert_eq!(contains(hay, needle), hay.contains(needle), "{hay:?} {needle:?}");
            assert_eq!(starts_with(hay, needle), hay.starts_with(needle), "{hay:?} {needle:?}");
            assert_eq!(
                strip_prefix(hay, needle),
                hay.strip_prefix(needle).map(String::from),
                "{hay:?} {needle:?}"
            );
            assert_eq!(str_eq(hay, needle), hay == needle);
        }
    }
    assert_eq!(before_char("a#b#c", '#'), "a");
    assert_eq!(before_char("abc", '#'), "abc");
    assert_eq!(before_char("#abc", '#'), "");
}

#[test]
fn splitting_agrees_with_the_standard_library() {
    for text in [
        "",
        "\n",
        "a",
        "a\n",
        "a\nb",
        "a\r\nb\r\n",
        "a\rb\n",
        "\r\n",
        "\n\n",
        "a\r",
        "x\n\ny\r\n\r\nz",
        "\r",
    ] {
        let expected: Vec<String> = text.lines().map(String::from).collect();
        assert_eq!(texts(split_lines(&chars_of(text))), expected, "{text:?}");
    }
    for text in ["", " ", "a", " a  b\tc\n", "\u{a0}x\u{2003}y", "auth  [a=b c=d]  /m.so"] {
        let expected: Vec<String> = text.split_whitespace().map(String::from).collect();
        assert_eq!(texts(split_whitespace(&chars_of(text))), expected, "{text:?}");
    }
}

#[test]
fn joining_agrees_with_the_standard_library() {
    for items in [vec![], vec!["a"], vec!["a", "b"], vec!["", "", "c"]] {
        let owned: Vec<String> = items.iter().map(|s| s.to_string()).collect();
        assert_eq!(join(&owned, ", "), owned.join(", "));
        assert_eq!(join(&owned, ""), owned.join(""));
    }
    for base in ["", "/", "/a", "/a/", "rel", "a//"] {
        for component in ["", "x", "/x", "x/y", "../x"] {
            assert_eq!(
                join_path(base, component),
                std::path::Path::new(base).join(component).display().to_string(),
                "{base:?} {component:?}"
            );
        }
    }
}

#[test]
fn errors_have_messages_and_exit_codes() {
    let cases: Vec<(AppError, u8, &str)> = vec![
        (
            AppError::DeviceOpen { device: "/dev/video0".into(), source: "busy".into() },
            4,
            "failed to open video device /dev/video0: busy",
        ),
        (
            AppError::MissingInput { path: "i.png".into() },
            2,
            "input file not found or unreadable: i.png",
        ),
        (
            AppError::ImageDecode { path: "i.png".into(), source: "bad".into() },
            2,
            "failed to decode image i.png: bad",
        ),
        (AppError::Capability("none".into()), 3, "device capability error: none"),
        (
            AppError::UnsupportedFormat("MJPG".into()),
            2,
            "unsupported pixel format 'MJPG' for selected device",
        ),
        (
            AppError::UnsupportedFrameSize { width: 640, height: 480, pixel_format: "Y16".into() },
            2,
            "requested frame size 640x480 unsupported for pixel format Y16",
        ),
        (AppError::Io("eof".into()), 1, "I/O error: eof"),
        (AppError::FrameProcessing("short".into()), 1, "failed processing frame data: short"),
        (
            AppError::MissingModel { kind: "k".into(), flag: "--f".into(), env: "E".into() },
            2,
            "missing k model; provide --f or set $E",
        ),
        (
            AppError::ModelLoad { path: "m.dat".into(), message: "bad".into() },
            2,
            "failed to load model m.dat: bad",
        ),
        (
            AppError::FeatureWrite { path: "f".into(), source: "full".into() },
            1,
            "failed to write feature output f: full",
        ),
        (
            AppError::FeatureRead { path: "f".into(), source: "gone".into() },
            2,
            "failed to read feature file f: gone",
        ),
        (
            AppError::InvalidFeatureFile { path: "f".into(), message: "m".into() },
            2,
            "embedding file f is invalid: m",
        ),
        (
            AppError::EmbeddingValidation { path: "f".into(), message: "m".into() },
            3,
            "embedding payload in f failed validation: m",
        ),
        (
            AppError::InvalidUser { user: "u".into(), message: "m".into() },
            2,
            "invalid user name 'u': m",
        ),
        (
            AppError::EmbeddingNotFound { user: "u".into(), embedding_id: "i".into() },
            4,
            "no embedding with id i found for user u",
        ),
        (AppError::Serialization("eof".into()), 1, "serialization error: eof"),
        (
            AppError::ConfigRead { path: "c".into(), source: "s".into() },
            2,
            "failed to read configuration file c: s",
        ),
        (
            AppError::ConfigParse { path: "c".into(), message: "m".into() },
            2,
            "invalid configuration file c: m",
        ),
        (
            AppError::SecretServiceUnavailable {
                user: "u".into(),
                service: "s".into(),
                message: "m".into(),
            },
            2,
            "Secret Service unavailable for user u (service s): m",
        ),
        (
            AppError::EncryptedStoreRequiresKey { path: "p".into() },
            2,
            "embedding store p is encrypted and requires a Secret Service key",
        ),
        (AppError::Encryption("e".into()), 2, "embedding encryption error: e"),
        (
            AppError::SecretServiceKeyInvalid { user: "u".into(), message: "m".into() },
            2,
            "Secret Service embedding key for user u invalid: m",
        ),
    ];
    for (err, code, message) in cases {
        assert_eq!(err.exit_code(), code, "{err:?}");
        assert_eq!(err.human_message(), message);
    }
}

#[test]
fn errors_are_rendered_with_their_cause() {
    assert_eq!(
        render_error(&AppError::Io("eof".into())),
        vec!["error: I/O error: eof".to_string(), "cause: eof".to_string()]
    );
    assert_eq!(
        render_error(&AppError::Capability("none".into())),
        vec!["error: device capability error: none".to_string()]
    );
    assert_eq!(
        render_error(&AppError::SecretServiceUnavailable {
            user: "u".into(),
            service: "s".into(),
            message: "m".into(),
        }),
        vec!["Secret Service unavailable for user 'u' (service 's'): m".to_string()]
    );
}

#[test]
fn outcomes_are_rendered_after_their_logs() {
    let capture = CaptureOutcome {
        summary: CaptureSummary {
            success: true,
            output_path: "/tmp/c.png".into(),
            device: DeviceSummary {
                driver: "d".into(),
                card: "c".into(),
                bus_info: "b".into(),
                path: "/dev/video0".into(),
            },
            format: NegotiatedFormat { pixel_format: "Y16".into(), width: 1, height: 1 },
            exposure: None,
            gain: None,
            auto_exposure: None,
            auto_gain: None,
        },
        logs: vec!["one".into(), "two".into()],
    };
    assert_eq!(
        render_success(&capture),
        vec!["one".to_string(), "two".to_string(), "Capture successful: /tmp/c.png".to_string()]
    );

    let extraction = FaceExtractionOutcome {
        summary: FaceExtractionSummary {
            success: true,
            image_path: "i.png".into(),
            output_path: "o.json".into(),
            num_faces: 2,
            faces: Vec::new(),
            landmark_model: "l".into(),
            encoder_model: "e".into(),
            num_jitters: 1,
        },
        logs: Vec::new(),
    };
    assert_eq!(
        render_face_success(&extraction),
        vec!["Feature extraction successful: o.json (faces: 2)".to_string()]
    );

    let comparison = FaceComparisonOutcome { scores: Vec::new(), logs: vec!["l".into()] };
    assert_eq!(render_face_compare(&comparison), vec!["l".to_string()]);

    let enrollment = FaceEnrollmentOutcome {
        user: "alice".into(),
        store_path: "/s/alice.json".into(),
        added: vec![EnrollmentRecord {
            id: "abc".into(),
            embedding_len: 128,
            source: "f.json".into(),
            created_at: "now".into(),
        }],
        logs: vec!["x".into()],
    };
    assert_eq!(
        render_face_enroll(&enrollment),
        vec![
            "x".to_string(),
            "Enrollment successful: 1 descriptor(s) added to /s/alice.json".to_string()
        ]
    );

    let auto = AutoEnrollOutcome {
        target_user: "alice".into(),
        capture_path: "c.png".into(),
        descriptor_path: "f.json".into(),
        capture_deleted: true,
        descriptor_deleted: true,
        faces_detected: 1,
        enrollment,
        logs: Vec::new(),
    };
    assert_eq!(
        render_auto_enroll(&auto),
        vec![
            "Auto enrollment successful: 1 descriptor(s) added for user alice".to_string(),
            "Encrypted store: /s/alice.json".to_string(),
        ]
    );

    let removal = FaceRemovalOutcome {
        user: "alice".into(),
        store_path: "/s/alice.json".into(),
        removed_ids: vec!["a".into(), "b".into()],
        remaining: 3,
        cleared: false,
        logs: Vec::new(),
    };
    assert_eq!(
        render_face_remove(&removal),
        vec!["Removal successful: removed 2 descriptor(s); remaining 3".to_string()]
    );

    assert_eq!(
        render_keyring_check(&KeyringCheckSummary { user: "u".into(), service: "s".into() }),
        "Secret Service available for user 'u' (service 's')"
    );
}
