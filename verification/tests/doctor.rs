use chissu_pam::capture::DeviceLocator;
use chissu_pam::config::{
    ConfigError, ConfigFile, LoadedConfig, ResolvedConfig, ResolvedConfigWithSource,
};
use chissu_pam::doctor::{
    check_config, check_embedding_dir, check_model, check_pam_module, check_pam_stack,
    check_secret_service, check_video_device, display_paths, doctor_outcome,
    file_references_pam_chissu, module_paths_from_line, pam_module_targets,
    secret_service_report, video_device_report, CheckStatus,
    ConfigObservation, DeviceOpener, DirObservation, DoctorCheck, DoctorPaths, FileProbe,
    ModuleProbe, ProbedModule, StackFile,
};
use chissu_pam::errors::{AppError, AppResult};
use chissu_pam::secret_service::{SecretServiceError, SecretServiceProbe};

struct StubDeviceOpener {
    ok: bool,
}

impl DeviceOpener for StubDeviceOpener {
    fn open(&self, locator: &DeviceLocator) -> AppResult<()> {
        if self.ok {
            Ok(())
        } else {
            Err(AppError::DeviceOpen { device: locator.display(), source: "not found".into() })
        }
    }
}

struct StubServiceProbe {
    result: Result<(), SecretServiceError>,
}

impl SecretServiceProbe for StubServiceProbe {
    fn check(&self, _user: &str) -> Result<(), SecretServiceError> {
        self.result.clone()
    }
}

fn paths() -> DoctorPaths {
    DoctorPaths {
        config_paths: vec!["/tmp/config.toml".into(), "/tmp/second.toml".into()],
        pam_module_paths: vec!["/tmp/libpam_chissu.so".into()],
        pamd_dir: "/tmp/pam.d".into(),
    }
}

fn settings() -> ResolvedConfigWithSource {
    ResolvedConfigWithSource {
        resolved: ResolvedConfig::from_raw(ConfigFile {
            embedding_store_dir: Some("/tmp/store".into()),
            video_device: Some("/tmp/video0".into()),
            ..Default::default()
        }),
        source: None,
    }
}

#[test]
fn doctor_reports_missing_config() {
    let seen =
        ConfigObservation { primary_exists: false, secondary_exists: false, loaded: Ok(None) };
    let (check, resolved) = check_config(&paths(), ResolvedConfig::default(), seen);
    assert_eq!(check.name, "config");
    assert_eq!(check.status, CheckStatus::Fail);
    assert_eq!(check.message, "Config file missing; tried /tmp/config.toml, /tmp/second.toml");
    assert_eq!(check.path, None);
    assert_eq!(resolved.resolved, ResolvedConfig::default());
    assert!(!doctor_outcome(vec![check]).ok);
}

#[test]
fn config_check_passes_for_one_file_and_warns_for_two() {
    let loaded = |source: &str| {
        Ok(Some(LoadedConfig::new(
            ConfigFile { jitters: Some(3), ..Default::default() },
            source.into(),
        )))
    };
    let seen = ConfigObservation {
        primary_exists: true,
        secondary_exists: false,
        loaded: loaded("/tmp/config.toml"),
    };
    let (check, resolved) = check_config(&paths(), ResolvedConfig::default(), seen);
    assert_eq!(check.status, CheckStatus::Pass);
    assert_eq!(check.message, "Loaded config from /tmp/config.toml");
    assert_eq!(check.path.as_deref(), Some("/tmp/config.toml"));
    assert_eq!(resolved.resolved.jitters, 3);
    assert_eq!(resolved.source.as_deref(), Some("/tmp/config.toml"));

    let seen = ConfigObservation {
        primary_exists: true,
        secondary_exists: true,
        loaded: loaded("/tmp/config.toml"),
    };
    let (check, _) = check_config(&paths(), ResolvedConfig::default(), seen);
    assert_eq!(check.status, CheckStatus::Warn);
    assert_eq!(check.message, "Both config files exist; using primary /tmp/config.toml");

    let seen = ConfigObservation {
        primary_exists: true,
        secondary_exists: true,
        loaded: loaded("/tmp/second.toml"),
    };
    let (check, _) = check_config(&paths(), ResolvedConfig::default(), seen);
    assert_eq!(check.status, CheckStatus::Warn);
    assert_eq!(check.message, "Both config files exist; using secondary /tmp/second.toml");
}

#[test]
fn config_check_reports_files_that_do_not_load() {
    let seen = ConfigObservation {
        primary_exists: true,
        secondary_exists: false,
        loaded: Err(ConfigError::Parse { path: "/tmp/config.toml".into(), message: "bad".into() }),
    };
    let fallback = ResolvedConfig::from_raw(ConfigFile { jitters: Some(9), ..Default::default() });
    let (check, resolved) = check_config(&paths(), fallback.clone(), seen);
    assert_eq!(check.status, CheckStatus::Fail);
    assert_eq!(check.message, "Failed to parse /tmp/config.toml: bad");
    assert_eq!(check.path.as_deref(), Some("/tmp/config.toml"));
    assert_eq!(resolved.resolved, fallback);
    let seen = ConfigObservation {
        primary_exists: true,
        secondary_exists: false,
        loaded: Err(ConfigError::Read { path: "/tmp/config.toml".into(), source: "denied".into() }),
    };
    let (check, _) = check_config(&paths(), fallback, seen);
    assert_eq!(check.message, "Failed to read /tmp/config.toml: denied");
}

#[test]
fn video_device_check_follows_the_opener() {
    let check = check_video_device(&settings(), &StubDeviceOpener { ok: true });
    assert_eq!(
        check,
        DoctorCheck {
            name: "video_device".into(),
            status: CheckStatus::Pass,
            message: "Opened video device /tmp/video0".into(),
            path: None,
            device: Some("/tmp/video0".into()),
        }
    );
    let check = check_video_device(&settings(), &StubDeviceOpener { ok: false });
    assert_eq!(check.status, CheckStatus::Fail);
    assert_eq!(check.message, "failed to open video device /tmp/video0: not found");
    assert_eq!(check.device.as_deref(), Some("/tmp/video0"));
}

#[test]
fn embedding_dir_check_names_what_is_lacking() {
    let seen = |exists, is_dir, readable, writeable| DirObservation {
        exists,
        is_dir,
        readable,
        writeable,
    };
    let cases = vec![
        (seen(false, false, false, false), CheckStatus::Fail, "Embedding store /tmp/store missing"),
        (
            seen(true, false, true, true),
            CheckStatus::Fail,
            "Embedding store /tmp/store is not a directory",
        ),
        (
            seen(true, true, true, true),
            CheckStatus::Pass,
            "Embedding store /tmp/store is readable/writable",
        ),
        (
            seen(true, true, false, false),
            CheckStatus::Fail,
            "Embedding store /tmp/store lacks read/write permissions",
        ),
        (
            seen(true, true, false, true),
            CheckStatus::Fail,
            "Embedding store /tmp/store lacks read permissions",
        ),
        (
            seen(true, true, true, false),
            CheckStatus::Fail,
            "Embedding store /tmp/store lacks write permissions",
        ),
    ];
    for (observation, status, message) in cases {
        let check = check_embedding_dir(&settings(), observation);
        assert_eq!(check.name, "embedding_store_dir");
        assert_eq!(check.status, status);
        assert_eq!(check.message, message);
        assert_eq!(check.path.as_deref(), Some("/tmp/store"));
    }
}

#[test]
fn model_check_needs_a_path_that_opens() {
    let path = "/tmp/landmark.dat".to_string();
    let check = check_model("landmark_model", Some(&path), &FileProbe::Opened);
    assert_eq!(check.status, CheckStatus::Pass);
    assert_eq!(check.message, "Found model at /tmp/landmark.dat");
    assert_eq!(check.path.as_deref(), Some("/tmp/landmark.dat"));
    let check = check_model("landmark_model", Some(&path), &FileProbe::Failed("gone".into()));
    assert_eq!(check.status, CheckStatus::Fail);
    assert_eq!(check.message, "Cannot read model /tmp/landmark.dat: gone");
    let check = check_model("encoder_model", None, &FileProbe::Opened);
    assert_eq!(check.name, "encoder_model");
    assert_eq!(check.status, CheckStatus::Fail);
    assert_eq!(check.message, "Model path not configured; set config or env");
    assert_eq!(check.path, None);
}

#[test]
fn secret_service_check_follows_the_probe() {
    let check = check_secret_service(&StubServiceProbe { result: Ok(()) }, "alice");
    assert_eq!(check.name, "secret_service");
    assert_eq!(check.status, CheckStatus::Pass);
    assert_eq!(check.message, "Secret Service available for user alice (service chissu-pam)");
    let check = check_secret_service(
        &StubServiceProbe { result: Err(SecretServiceError::new("alice", "chissu-pam", "locked")) },
        "alice",
    );
    assert_eq!(check.status, CheckStatus::Fail);
    assert_eq!(
        check.message,
        "Secret Service unavailable for user 'alice' (service 'chissu-pam'): locked"
    );
}

#[test]
fn doctor_ignores_commented_pam_entries() {
    let mut referenced = Vec::new();
    assert!(!file_references_pam_chissu("# auth required pam_chissu.so\n", &mut referenced));
    assert!(!file_references_pam_chissu(
        "auth required pam_unix.so # pam_chissu.so\n",
        &mut referenced
    ));
    assert!(!file_references_pam_chissu("", &mut referenced));
    assert!(!file_references_pam_chissu("\n\n   \n", &mut referenced));
    assert!(referenced.is_empty());
}

#[test]
fn doctor_parses_complex_control_lines() {
    let mut referenced = vec!["/already".to_string()];
    let contents = "#%PAM-1.0\r\n\
        auth  [success=3 default=ignore]  /usr/lib/security/libpam_chissu.so debug # first\r\n\
        auth required /lib/security/pam_chissu_other.so\n";
    assert!(file_references_pam_chissu(contents, &mut referenced));
    assert_eq!(
        referenced,
        vec!["/already".to_string(), "/usr/lib/security/libpam_chissu.so".to_string()]
    );
    let mut referenced = Vec::new();
    assert!(file_references_pam_chissu("auth required pam_chissu.so", &mut referenced));
    assert!(referenced.is_empty());
}

#[test]
fn module_paths_are_the_absolute_words_after_the_type() {
    assert_eq!(
        module_paths_from_line("auth sufficient /lib/security/libpam_chissu.so /x/pam_chissu2.so"),
        vec!["/lib/security/libpam_chissu.so".to_string(), "/x/pam_chissu2.so".to_string()]
    );
    assert_eq!(module_paths_from_line("/lib/libpam_chissu.so"), Vec::<String>::new());
    assert_eq!(module_paths_from_line("auth required pam_chissu.so"), Vec::<String>::new());
    assert_eq!(module_paths_from_line("auth required /lib/pam_unix.so"), Vec::<String>::new());
    assert_eq!(module_paths_from_line(""), Vec::<String>::new());
    assert_eq!(
        module_paths_from_line("  auth\t\trequired\u{a0}/m/pam_chissu.so  "),
        vec!["/m/pam_chissu.so".to_string()]
    );
}

#[test]
fn paths_are_shown_with_commas() {
    assert_eq!(display_paths(&vec!["/a".into(), "/b".into(), "/c".into()]), "/a, /b, /c");
    assert_eq!(display_paths(&vec!["/a".into()]), "/a");
    assert_eq!(display_paths(&Vec::new()), "");
}

#[test]
fn module_targets_are_what_is_named_or_the_usual_places() {
    let fallback = vec!["/lib/a.so".to_string(), "/lib64/a.so".to_string()];
    assert_eq!(pam_module_targets(&Vec::new(), &fallback), fallback);
    let named = vec![
        "/x.so".to_string(),
        "/x.so".to_string(),
        "/y.so".to_string(),
        "/x.so".to_string(),
        "/x.so".to_string(),
    ];
    let mut expected = named.clone();
    expected.dedup();
    assert_eq!(pam_module_targets(&named, &fallback), expected);
    assert_eq!(expected, vec!["/x.so".to_string(), "/y.so".to_string(), "/x.so".to_string()]);
}

fn probed(path: &str, probe: ModuleProbe) -> ProbedModule {
    ProbedModule { path: path.into(), probe }
}

#[test]
fn module_check_wants_files_only_their_owner_can_write() {
    let check = check_pam_module(
        true,
        &vec![
            probed("/a.so", ModuleProbe::Opened { mode: Some(0o100644) }),
            probed("/b.so", ModuleProbe::Opened { mode: None }),
        ],
    );
    assert_eq!(check.name, "pam_module");
    assert_eq!(check.status, CheckStatus::Pass);
    assert_eq!(check.message, "Validated PAM module(s): /a.so, /b.so");
    assert_eq!(check.path.as_deref(), Some("/a.so, /b.so"));

    let check = check_pam_module(
        true,
        &vec![
            probed("/a.so", ModuleProbe::Opened { mode: Some(0o100664) }),
            probed("/b.so", ModuleProbe::Failed("No such file".into())),
        ],
    );
    assert_eq!(check.status, CheckStatus::Fail);
    assert_eq!(
        check.message,
        "PAM module validation failed: /a.so is world/group-writable (mode 664); /b.so: No such file"
    );
    assert_eq!(check.path, None);

    let check = check_pam_module(
        true,
        &vec![
            probed("/a.so", ModuleProbe::Opened { mode: Some(0o100602) }),
            probed("/b.so", ModuleProbe::Opened { mode: Some(0o755) }),
        ],
    );
    assert_eq!(check.status, CheckStatus::Fail);
    assert_eq!(
        check.message,
        "Some PAM modules invalid: /a.so is world/group-writable (mode 602); ok: /b.so"
    );
}

#[test]
fn module_check_warns_where_nothing_was_named_and_nothing_found() {
    let check = check_pam_module(
        false,
        &vec![
            probed("/lib/a.so", ModuleProbe::Failed("missing".into())),
            probed("/lib64/a.so", ModuleProbe::Failed("missing".into())),
        ],
    );
    assert_eq!(check.status, CheckStatus::Warn);
    assert_eq!(
        check.message,
        "No pam_chissu reference to validate; searched /lib/a.so, /lib64/a.so"
    );
    let check = check_pam_module(true, &Vec::new());
    assert_eq!(check.status, CheckStatus::Fail);
    assert_eq!(check.message, "PAM module validation failed: ");
}

fn stack_file(name: &str, is_file: bool, contents: Option<&str>) -> StackFile {
    StackFile { name: name.into(), is_file, contents: contents.map(String::from) }
}

#[test]
fn stack_check_lists_the_files_that_mention_the_module() {
    let listing = Ok(vec![
        stack_file("login", true, Some("auth required /lib/security/libpam_chissu.so\n")),
        stack_file("sshd", true, Some("auth required pam_unix.so\n")),
        stack_file("dir", false, Some("auth required pam_chissu.so\n")),
        stack_file("binary", true, None),
        stack_file("sudo", true, Some("# c\nauth sufficient pam_chissu.so\n")),
    ]);
    let (check, referenced) = check_pam_stack("/etc/pam.d", &listing);
    assert_eq!(check.name, "pam_stack");
    assert_eq!(check.status, CheckStatus::Pass);
    assert_eq!(check.message, "libpam_chissu.so referenced in: login, sudo");
    assert_eq!(check.path.as_deref(), Some("/etc/pam.d"));
    assert_eq!(referenced, vec!["/lib/security/libpam_chissu.so".to_string()]);
}

#[test]
fn stack_check_warns_or_fails_without_a_mention() {
    let (check, referenced) =
        check_pam_stack("/etc/pam.d", &Ok(vec![stack_file("login", true, Some("auth x y\n"))]));
    assert_eq!(check.status, CheckStatus::Warn);
    assert_eq!(
        check.message,
        "No pam_chissu entry found under /etc/pam.d; add to your target service file"
    );
    assert!(referenced.is_empty());
    let (check, referenced) = check_pam_stack("/etc/pam.d", &Err("denied".into()));
    assert_eq!(check.status, CheckStatus::Fail);
    assert_eq!(check.message, "Failed to read /etc/pam.d: denied");
    assert!(referenced.is_empty());
}

#[test]
fn all_is_well_only_if_every_check_passes() {
    let make = |status| DoctorCheck {
        name: "x".into(),
        status,
        message: "m".into(),
        path: None,
        device: None,
    };
    assert!(doctor_outcome(vec![make(CheckStatus::Pass), make(CheckStatus::Pass)]).ok);
    assert!(!doctor_outcome(vec![make(CheckStatus::Pass), make(CheckStatus::Warn)]).ok);
    assert!(!doctor_outcome(vec![make(CheckStatus::Fail)]).ok);
    let outcome = doctor_outcome(Vec::new());
    assert!(outcome.ok);
    assert!(outcome.checks.is_empty());
    let defaults = DoctorPaths::default();
    assert_eq!(defaults.config_paths[0], "/etc/chissu-pam/config.toml");
    assert_eq!(defaults.pam_module_paths.len(), 3);
    assert_eq!(defaults.pamd_dir, "/etc/pam.d");
}

#[test]
fn reports_say_what_opener_and_probe_found() {
    let check = video_device_report("/dev/video1".into(), Ok(()));
    assert_eq!(check.status, CheckStatus::Pass);
    assert_eq!(check.message, "Opened video device /dev/video1");
    assert_eq!(check.device.as_deref(), Some("/dev/video1"));
    let check = video_device_report(
        "/dev/video1".into(),
        Err(AppError::Capability("missing VIDEO_CAPTURE".into())),
    );
    assert_eq!(check.status, CheckStatus::Fail);
    assert_eq!(check.message, "device capability error: missing VIDEO_CAPTURE");
    let check = secret_service_report("bob", Err(SecretServiceError::new("bob", "s", "gone")));
    assert_eq!(check.status, CheckStatus::Fail);
    assert_eq!(check.message, "Secret Service unavailable for user 'bob' (service 's'): gone");
    let check = secret_service_report("bob", Ok(()));
    assert_eq!(check.message, "Secret Service available for user bob (service chissu-pam)");
}
