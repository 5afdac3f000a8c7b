//! The diagnostic checks of the command-line tool.
//!
//! Looking at files, devices and the secret service is the caller's part.
//! The caller reports what it saw; what that means for each check, and what
//! the check says, is decided here.
use crate::capture::{device_path, located, DeviceLocator};
use crate::config::{
    resolves, ConfigError, LoadedConfig, ResolvedConfig, ResolvedConfigWithSource,
    PRIMARY_CONFIG_PATH, SECONDARY_CONFIG_PATH,
};
use crate::errors::AppResult;
use crate::logind::opt_text;
use crate::secret_service::{
    default_service_name, ensure_secret_service_available, SecretServiceProbe,
    DEFAULT_SERVICE_NAME,
};
use crate::text::{
    before_char, before_first, char_lists, chars_occur_at, chars_of, has_prefix, has_substring,
    contains, join, joined, split_lines, split_whitespace, starts_with, str_eq, string_of,
    text_views, trim, trim_chars, trimmed, lines_of, words_of, octal, octal_digits,
};
use vstd::prelude::*;
use vstd::string::StringExecFns;

verus! {

/// The name of the check of the configuration files.
pub const CHECK_CONFIG: &'static str = "config";

/// The name of the check of the camera.
pub const CHECK_VIDEO_DEVICE: &'static str = "video_device";

/// The name of the check of the store directory.
pub const CHECK_EMBEDDING_DIR: &'static str = "embedding_store_dir";

/// The name of the check of the landmark model.
pub const CHECK_LANDMARK_MODEL: &'static str = "landmark_model";

/// The name of the check of the encoder model.
pub const CHECK_ENCODER_MODEL: &'static str = "encoder_model";

/// The name of the check of the secret service.
pub const CHECK_SECRET_SERVICE: &'static str = "secret_service";

/// The name of the check of the module files.
pub const CHECK_PAM_MODULE: &'static str = "pam_module";

/// The name of the check of the stack files.
pub const CHECK_PAM_STACK: &'static str = "pam_stack";

/// How a check went.
#[derive(Debug, Clone, Copy, PartialEq, Eq, Structural)]
pub enum CheckStatus {
    Pass,
    Warn,
    Fail,
}

/// One check and what it found.
#[derive(Debug, Clone, PartialEq, Eq)]
pub struct DoctorCheck {
    pub name: String,
    pub status: CheckStatus,
    pub message: String,
    pub path: Option<String>,
    pub device: Option<String>,
}

/// All checks, and whether every one of them passed.
#[derive(Debug, Clone, PartialEq, Eq)]
pub struct DoctorOutcome {
    pub ok: bool,
    pub checks: Vec<DoctorCheck>,
}

/// Where the checks look.
#[derive(Debug, Clone, PartialEq, Eq)]
pub struct DoctorPaths {
    pub config_paths: Vec<String>,
    pub pam_module_paths: Vec<String>,
    pub pamd_dir: String,
}

impl Default for DoctorPaths {
    fn default() -> (paths: DoctorPaths)
        ensures
            paths.config_paths@.len() == 2,
            paths.config_paths@[0]@ == PRIMARY_CONFIG_PATH@,
            paths.config_paths@[1]@ == SECONDARY_CONFIG_PATH@,
            paths.pam_module_paths@.len() == 3,
            paths.pamd_dir@ == "/etc/pam.d"@,
    {
        let mut config_paths: Vec<String> = Vec::new();
        config_paths.push(PRIMARY_CONFIG_PATH.to_owned());
        config_paths.push(SECONDARY_CONFIG_PATH.to_owned());
        let mut pam_module_paths: Vec<String> = Vec::new();
        pam_module_paths.push("/usr/lib/x86_64-linux-gnu/security/libpam_chissu.so".to_owned());
        pam_module_paths.push("/lib/security/libpam_chissu.so".to_owned());
        pam_module_paths.push("/lib64/security/libpam_chissu.so".to_owned());
        DoctorPaths { config_paths, pam_module_paths, pamd_dir: "/etc/pam.d".to_owned() }
    }
}

/// Something that can try to open a video device.
pub trait DeviceOpener {
    fn open(&self, locator: &DeviceLocator) -> AppResult<()>;
}

/// What the checks are run with.
pub struct DoctorContext<P, D> {
    pub paths: DoctorPaths,
    pub secret_service_probe: P,
    pub device_opener: D,
    pub fallback_config: ResolvedConfig,
}

/// Whether `check` is the check of this name with this status and message,
/// pointing at this path and this device.
pub open spec fn is_check(
    check: DoctorCheck,
    name: Seq<char>,
    status: CheckStatus,
    message: Seq<char>,
    path: Option<Seq<char>>,
    device: Option<Seq<char>>,
) -> bool {
    &&& check.name@ == name
    &&& check.status == status
    &&& check.message@ == message
    &&& opt_text(check.path) == path
    &&& opt_text(check.device) == device
}

fn check(name: &str, status: CheckStatus, message: String, path: Option<String>, device: Option<
    String,
>) -> (made: DoctorCheck)
    ensures
        is_check(made, name@, status, message@, opt_text(path), opt_text(device)),
{
    DoctorCheck { name: name.to_owned(), status, message, path, device }
}

fn words2(a: &str, b: &str) -> (out: String)
    ensures
        out@ == a@ + b@,
{
    let mut out = a.to_owned();
    out.append(b);
    out
}

fn words3(a: &str, b: &str, c: &str) -> (out: String)
    ensures
        out@ == a@ + b@ + c@,
{
    let mut out = a.to_owned();
    out.append(b);
    out.append(c);
    out
}

fn words4(a: &str, b: &str, c: &str, d: &str) -> (out: String)
    ensures
        out@ == a@ + b@ + c@ + d@,
{
    let mut out = a.to_owned();
    out.append(b);
    out.append(c);
    out.append(d);
    out
}

/// The paths, separated by commas.
pub fn display_paths(paths: &Vec<String>) -> (shown: String)
    ensures
        shown@ == joined(text_views(paths@), ", "@, paths@.len() as int),
{
    join(paths, ", ")
}

/// Whether a word of a stack entry names a module file of ours: an absolute
/// path with `pam_chissu` in it.
pub open spec fn is_module_path(word: Seq<char>) -> bool {
    has_prefix(word, "/"@) && has_substring(word, "pam_chissu"@)
}

/// Of the words from index `from` on, those that name a module file of
/// ours.
pub open spec fn module_paths_among(words: Seq<Seq<char>>, from: int) -> Seq<Seq<char>>
    decreases words.len() - from,
{
    if from < 0 || from >= words.len() {
        seq![]
    } else if is_module_path(words[from]) {
        seq![words[from]] + module_paths_among(words, from + 1)
    } else {
        module_paths_among(words, from + 1)
    }
}

/// The module files of ours that one entry of a stack file names: the word
/// that gives the entry's type aside, every word that is an absolute path
/// with `pam_chissu` in it.
pub open spec fn module_paths_in(line: Seq<char>) -> Seq<Seq<char>> {
    module_paths_among(words_of(line), 1)
}

/// The module files of ours that one entry of a stack file names.
pub fn module_paths_from_line(line: &str) -> (paths: Vec<String>)
    ensures
        text_views(paths@) == module_paths_in(line@),
{
    let chars = chars_of(line);
    let words = split_whitespace(&chars);
    let slash = chars_of("/");
    let marker = chars_of("pam_chissu");
    let mut paths: Vec<String> = Vec::new();
    if words.len() == 0 {
        return paths;
    }
    let mut i: usize = 1;
    while i < words.len()
        invariant
            1 <= i <= words.len(),
            char_lists(words@) == words_of(line@),
            slash@ == "/"@,
            marker@ == "pam_chissu"@,
            text_views(paths@) + module_paths_among(words_of(line@), i as int)
                == module_paths_among(words_of(line@), 1),
        decreases words.len() - i,
    {
        let word = &words[i];
        assert(char_lists(words@)[i as int] == word@);
        let text = string_of(word.as_slice());
        if chars_occur_at(word, &slash, 0) && contains(text.as_str(), "pam_chissu") {
            let ghost before = text_views(paths@);
            paths.push(text);
            assert(text_views(paths@) == before.push(word@));
            assert(before + (seq![word@] + module_paths_among(words_of(line@), i + 1))
                == before.push(word@) + module_paths_among(words_of(line@), i + 1));
        }
        i += 1;
    }
    assert(text_views(paths@) + Seq::<Seq<char>>::empty() == text_views(paths@));
    paths
}

/// What of a line of a stack file is in force: nothing of a line that is
/// empty or a comment, else what comes before the first `#`, without the
/// whitespace around it.
pub open spec fn active_part(line: Seq<char>) -> Option<Seq<char>> {
    let text = trimmed(line);
    if text.len() == 0 || has_prefix(text, "#"@) {
        None
    } else {
        Some(trimmed(before_first(text, '#')))
    }
}

/// The first entry, from line `from` on, that mentions `pam_chissu`.
pub open spec fn first_reference(lines: Seq<Seq<char>>, from: int) -> Option<Seq<char>>
    decreases lines.len() - from,
{
    if from < 0 || from >= lines.len() {
        None
    } else {
        match active_part(lines[from]) {
            Some(active) if has_substring(active, "pam_chissu"@) => Some(active),
            _ => first_reference(lines, from + 1),
        }
    }
}

/// Looks for an entry that mentions `pam_chissu` in the contents of a stack
/// file, comments aside. Where there is one, the module files that the
/// first such entry names are added to `referenced`.
pub fn file_references_pam_chissu(contents: &str, referenced: &mut Vec<String>) -> (found: bool)
    ensures
        match first_reference(lines_of(contents@), 0) {
            Some(entry) => found && text_views(final(referenced)@) == text_views(old(referenced)@)
                + module_paths_in(entry),
            None => !found && final(referenced)@ == old(referenced)@,
        },
{
    let chars = chars_of(contents);
    let lines = split_lines(&chars);
    let mut i: usize = 0;
    while i < lines.len()
        invariant
            i <= lines.len(),
            char_lists(lines@) == lines_of(contents@),
            referenced@ == old(referenced)@,
            first_reference(lines_of(contents@), 0) == first_reference(
                lines_of(contents@),
                i as int,
            ),
        decreases lines.len() - i,
    {
        assert(char_lists(lines@)[i as int] == lines@[i as int]@);
        let text = trim_chars(&lines[i]);
        let line = string_of(text.as_slice());
        if text.len() > 0 && !starts_with(line.as_str(), "#") {
            let head = before_char(line.as_str(), '#');
            let active = trim(head.as_str());
            if contains(active.as_str(), "pam_chissu") {
                let mut paths = module_paths_from_line(active.as_str());
                let ghost before = text_views(referenced@);
                let ghost added = text_views(paths@);
                referenced.append(&mut paths);
                assert(text_views(referenced@) =~= before + added);
                return true;
            }
        }
        i += 1;
    }
    false
}

/// What was seen of the configuration files.
#[derive(Debug, PartialEq, Eq)]
pub struct ConfigObservation {
    pub primary_exists: bool,
    pub secondary_exists: bool,
    /// What the search through the configuration paths came to.
    pub loaded: Result<Option<LoadedConfig>, ConfigError>,
}

/// The status of the configuration check: a pass for one file that loads,
/// a warning where both files exist, a failure where none loads.
pub open spec fn config_status(seen: ConfigObservation) -> CheckStatus {
    match seen.loaded {
        Ok(Some(_)) => if seen.primary_exists && seen.secondary_exists {
            CheckStatus::Warn
        } else {
            CheckStatus::Pass
        },
        _ => CheckStatus::Fail,
    }
}

/// What the configuration check says.
pub open spec fn config_message(paths: DoctorPaths, seen: ConfigObservation) -> Seq<char> {
    match seen.loaded {
        Ok(Some(entry)) => if seen.primary_exists && seen.secondary_exists {
            if paths.config_paths@.len() > 1 && entry.source@ == paths.config_paths@[1]@ {
                "Both config files exist; using secondary "@ + entry.source@
            } else {
                "Both config files exist; using primary "@ + entry.source@
            }
        } else {
            "Loaded config from "@ + entry.source@
        },
        Ok(None) => "Config file missing; tried "@ + joined(
            text_views(paths.config_paths@),
            ", "@,
            paths.config_paths@.len() as int,
        ),
        Err(ConfigError::Parse { path, message }) => "Failed to parse "@ + path@ + ": "@
            + message@,
        Err(ConfigError::Read { path, source }) => "Failed to read "@ + path@ + ": "@ + source@,
    }
}

/// The file the configuration check points at.
pub open spec fn config_path(seen: ConfigObservation) -> Option<Seq<char>> {
    match seen.loaded {
        Ok(Some(entry)) => Some(entry.source@),
        Ok(None) => None,
        Err(ConfigError::Parse { path, .. }) => Some(path@),
        Err(ConfigError::Read { path, .. }) => Some(path@),
    }
}

/// Checks the configuration, and settles the settings the other checks go
/// by: those of the file that loaded, or `fallback` where none did.
pub fn check_config(paths: &DoctorPaths, fallback: ResolvedConfig, seen: ConfigObservation) -> (
checked: (DoctorCheck, ResolvedConfigWithSource))
    ensures
        is_check(
            checked.0,
            CHECK_CONFIG@,
            config_status(seen),
            config_message(*paths, seen),
            config_path(seen),
            None,
        ),
        match seen.loaded {
            Ok(Some(entry)) => resolves(entry.contents, checked.1.resolved) && opt_text(
                checked.1.source,
            ) == Some(entry.source@),
            _ => checked.1.resolved == fallback && checked.1.source is None,
        },
{
    let both = seen.primary_exists && seen.secondary_exists;
    match seen.loaded {
        Ok(Some(entry)) => {
            let source = entry.source.clone();
            let message = if both {
                if paths.config_paths.len() > 1 && str_eq(
                    source.as_str(),
                    paths.config_paths[1].as_str(),
                ) {
                    words2("Both config files exist; using secondary ", source.as_str())
                } else {
                    words2("Both config files exist; using primary ", source.as_str())
                }
            } else {
                words2("Loaded config from ", source.as_str())
            };
            let status = if both {
                CheckStatus::Warn
            } else {
                CheckStatus::Pass
            };
            let resolved = ResolvedConfigWithSource {
                resolved: ResolvedConfig::from_raw(entry.contents),
                source: Some(source.clone()),
            };
            (check(CHECK_CONFIG, status, message, Some(source), None), resolved)
        },
        Ok(None) => {
            let tried = display_paths(&paths.config_paths);
            (
                check(
                    CHECK_CONFIG,
                    CheckStatus::Fail,
                    words2("Config file missing; tried ", tried.as_str()),
                    None,
                    None,
                ),
                ResolvedConfigWithSource { resolved: fallback, source: None },
            )
        },
        Err(ConfigError::Parse { path, message }) => (
            check(
                CHECK_CONFIG,
                CheckStatus::Fail,
                words4("Failed to parse ", path.as_str(), ": ", message.as_str()),
                Some(path),
                None,
            ),
            ResolvedConfigWithSource { resolved: fallback, source: None },
        ),
        Err(ConfigError::Read { path, source }) => (
            check(
                CHECK_CONFIG,
                CheckStatus::Fail,
                words4("Failed to read ", path.as_str(), ": ", source.as_str()),
                Some(path),
                None,
            ),
            ResolvedConfigWithSource { resolved: fallback, source: None },
        ),
    }
}

/// What the check of the camera says.
pub open spec fn video_device_message(device: Seq<char>, opened: Result<(), crate::errors::AppError>) -> Seq<
    char,
> {
    match opened {
        Ok(_) => "Opened video device "@ + device,
        Err(err) => err.message_text(),
    }
}

/// What an attempt to open the device shown as `device` means for the check
/// of the camera: a pass where it opened, else a failure that says why.
pub fn video_device_report(device: String, opened: Result<(), crate::errors::AppError>) -> (made:
    DoctorCheck)
    ensures
        is_check(
            made,
            CHECK_VIDEO_DEVICE@,
            if opened is Ok {
                CheckStatus::Pass
            } else {
                CheckStatus::Fail
            },
            video_device_message(device@, opened),
            None,
            Some(device@),
        ),
{
    match opened {
        Ok(_) => check(
            CHECK_VIDEO_DEVICE,
            CheckStatus::Pass,
            words2("Opened video device ", device.as_str()),
            None,
            Some(device),
        ),
        Err(err) => check(
            CHECK_VIDEO_DEVICE,
            CheckStatus::Fail,
            err.human_message(),
            None,
            Some(device),
        ),
    }
}

/// Checks that the configured video device opens. Whether it does lies
/// with the opener; the check passes exactly when the opener succeeds, and
/// it names the device either way.
pub fn check_video_device<D: DeviceOpener>(cfg: &ResolvedConfigWithSource, opener: &D) -> (made:
    DoctorCheck)
    ensures
        made.name@ == CHECK_VIDEO_DEVICE@,
        made.path is None,
        opt_text(made.device) == Some(device_path(located(Some(cfg.resolved.video_device@)))),
        made.status == CheckStatus::Pass || made.status == CheckStatus::Fail,
        made.status == CheckStatus::Pass ==> made.message@ == "Opened video device "@
            + device_path(located(Some(cfg.resolved.video_device@))),
{
    let locator = DeviceLocator::from_option(Some(cfg.resolved.video_device.clone()));
    let display = locator.display();
    let opened = opener.open(&locator);
    video_device_report(display, opened)
}

/// What was seen of the directory of the stores.
#[derive(Debug, Clone, Copy, PartialEq, Eq, Structural)]
pub struct DirObservation {
    pub exists: bool,
    pub is_dir: bool,
    pub readable: bool,
    pub writeable: bool,
}

/// What the check of the store directory says.
pub open spec fn embedding_dir_message(dir: Seq<char>, seen: DirObservation) -> Seq<char> {
    if !seen.exists {
        "Embedding store "@ + dir + " missing"@
    } else if !seen.is_dir {
        "Embedding store "@ + dir + " is not a directory"@
    } else if seen.readable && seen.writeable {
        "Embedding store "@ + dir + " is readable/writable"@
    } else {
        "Embedding store "@ + dir + " lacks "@ + (if !seen.readable && !seen.writeable {
            "read/write"@
        } else if !seen.readable {
            "read"@
        } else {
            "write"@
        }) + " permissions"@
    }
}

/// Checks the directory of the stores: it must exist, be a directory, and
/// be readable and writable.
pub fn check_embedding_dir(cfg: &ResolvedConfigWithSource, seen: DirObservation) -> (made:
    DoctorCheck)
    ensures
        is_check(
            made,
            CHECK_EMBEDDING_DIR@,
            if seen.exists && seen.is_dir && seen.readable && seen.writeable {
                CheckStatus::Pass
            } else {
                CheckStatus::Fail
            },
            embedding_dir_message(cfg.resolved.embedding_store_dir@, seen),
            Some(cfg.resolved.embedding_store_dir@),
            None,
        ),
{
    let dir = cfg.resolved.embedding_store_dir.as_str();
    let path = Some(cfg.resolved.embedding_store_dir.clone());
    if !seen.exists {
        check(
            CHECK_EMBEDDING_DIR,
            CheckStatus::Fail,
            words3("Embedding store ", dir, " missing"),
            path,
            None,
        )
    } else if !seen.is_dir {
        check(
            CHECK_EMBEDDING_DIR,
            CheckStatus::Fail,
            words3("Embedding store ", dir, " is not a directory"),
            path,
            None,
        )
    } else if seen.readable && seen.writeable {
        check(
            CHECK_EMBEDDING_DIR,
            CheckStatus::Pass,
            words3("Embedding store ", dir, " is readable/writable"),
            path,
            None,
        )
    } else {
        let lacking = if !seen.readable && !seen.writeable {
            "read/write"
        } else if !seen.readable {
            "read"
        } else {
            "write"
        };
        let mut m = words4("Embedding store ", dir, " lacks ", lacking);
        m.append(" permissions");
        check(CHECK_EMBEDDING_DIR, CheckStatus::Fail, m, path, None)
    }
}

/// What an attempt to open a file came to.
#[derive(Debug, Clone, PartialEq, Eq)]
pub enum FileProbe {
    Opened,
    /// The file did not open; the text says why.
    Failed(String),
}

/// What the check of a model says.
pub open spec fn model_message(path: Option<Seq<char>>, probe: FileProbe) -> Seq<char> {
    match path {
        None => "Model path not configured; set config or env"@,
        Some(p) => match probe {
            FileProbe::Opened => "Found model at "@ + p,
            FileProbe::Failed(cause) => "Cannot read model "@ + p + ": "@ + cause@,
        },
    }
}

/// Checks a model file: it must be configured and must open. `probe` is
/// what opening it came to, and counts only where a path is configured.
pub fn check_model(name: &str, path: Option<&String>, probe: &FileProbe) -> (made: DoctorCheck)
    ensures
        is_check(
            made,
            name@,
            if path is Some && *probe is Opened {
                CheckStatus::Pass
            } else {
                CheckStatus::Fail
            },
            model_message(
                match path {
                    Some(p) => Some(p@),
                    None => None,
                },
                *probe,
            ),
            match path {
                Some(p) => Some(p@),
                None => None,
            },
            None,
        ),
{
    match path {
        None => check(
            name,
            CheckStatus::Fail,
            "Model path not configured; set config or env".to_owned(),
            None,
            None,
        ),
        Some(p) => match probe {
            FileProbe::Opened => check(
                name,
                CheckStatus::Pass,
                words2("Found model at ", p.as_str()),
                Some(p.clone()),
                None,
            ),
            FileProbe::Failed(cause) => check(
                name,
                CheckStatus::Fail,
                words4("Cannot read model ", p.as_str(), ": ", cause.as_str()),
                Some(p.clone()),
                None,
            ),
        },
    }
}

/// What the check of the secret service says.
pub open spec fn secret_service_message(
    user: Seq<char>,
    checked: Result<(), crate::secret_service::SecretServiceError>,
) -> Seq<char> {
    match checked {
        Ok(_) => "Secret Service available for user "@ + user + " (service "@
            + DEFAULT_SERVICE_NAME@ + ")"@,
        Err(err) => err.display_text(),
    }
}

/// What the answer of a probe for `user` means for the check of the secret
/// service: a pass where the service is available, else a failure in the
/// probe's words.
pub fn secret_service_report(
    user: &str,
    checked: Result<(), crate::secret_service::SecretServiceError>,
) -> (made: DoctorCheck)
    ensures
        is_check(
            made,
            CHECK_SECRET_SERVICE@,
            if checked is Ok {
                CheckStatus::Pass
            } else {
                CheckStatus::Fail
            },
            secret_service_message(user@, checked),
            None,
            None,
        ),
{
    match checked {
        Ok(_) => {
            let mut m = words4(
                "Secret Service available for user ",
                user,
                " (service ",
                default_service_name(),
            );
            m.append(")");
            check(CHECK_SECRET_SERVICE, CheckStatus::Pass, m, None, None)
        },
        Err(err) => check(CHECK_SECRET_SERVICE, CheckStatus::Fail, err.display(), None, None),
    }
}

/// Checks that the secret service answers for `user`. Whether it does lies
/// with the probe; the check is the report on an answer that the probe's own
/// check gives for this user, and so passes exactly when the probe succeeds.
pub fn check_secret_service<P: SecretServiceProbe>(probe: &P, user: &str) -> (made: DoctorCheck)
    ensures
        exists|checked: Result<(), crate::secret_service::SecretServiceError>| #[trigger]
            call_ensures(P::check, (probe, user), checked) && is_check(
                made,
                CHECK_SECRET_SERVICE@,
                if checked is Ok {
                    CheckStatus::Pass
                } else {
                    CheckStatus::Fail
                },
                secret_service_message(user@, checked),
                None,
                None,
            ),
        made.name@ == CHECK_SECRET_SERVICE@,
        made.path is None,
        made.device is None,
        made.status == CheckStatus::Pass || made.status == CheckStatus::Fail,
        made.status == CheckStatus::Pass ==> made.message@
            == "Secret Service available for user "@ + user@ + " (service "@
            + DEFAULT_SERVICE_NAME@ + ")"@,
{
    let checked = ensure_secret_service_available(probe, user);
    secret_service_report(user, checked)
}

/// The outcome of the checks: all is well exactly when every check passed.
pub fn doctor_outcome(checks: Vec<DoctorCheck>) -> (outcome: DoctorOutcome)
    ensures
        outcome.checks == checks,
        outcome.ok <==> forall|i: int|
            0 <= i < checks@.len() ==> (#[trigger] checks@[i]).status == CheckStatus::Pass,
{
    let mut ok = true;
    let mut i: usize = 0;
    while i < checks.len()
        invariant
            i <= checks.len(),
            ok <==> forall|k: int|
                0 <= k < i ==> (#[trigger] checks@[k]).status == CheckStatus::Pass,
        decreases checks.len() - i,
    {
        match checks[i].status {
            CheckStatus::Pass => {},
            _ => {
                ok = false;
            },
        }
        i += 1;
    }
    DoctorOutcome { ok, checks }
}

/// What opening a module file came to.
#[derive(Debug, Clone, PartialEq, Eq)]
pub enum ModuleProbe {
    /// The file opened; its permission bits follow where they could be had.
    Opened { mode: Option<u32> },
    /// The file did not open; the text says why.
    Failed(String),
}

/// A module file and what opening it came to.
#[derive(Debug, Clone, PartialEq, Eq)]
pub struct ProbedModule {
    pub path: String,
    pub probe: ModuleProbe,
}

/// Of the first `upto` paths, each that differs from the one before it.
pub open spec fn without_repeats(paths: Seq<Seq<char>>, upto: int) -> Seq<Seq<char>>
    decreases upto,
{
    if upto <= 0 || upto > paths.len() {
        seq![]
    } else if upto > 1 && paths[upto - 1] == paths[upto - 2] {
        without_repeats(paths, upto - 1)
    } else {
        without_repeats(paths, upto - 1).push(paths[upto - 1])
    }
}

/// The module files to look at: those the stack files name, or the usual
/// places where they name none; a path that repeats the one before it is
/// looked at once.
pub fn pam_module_targets(referenced: &Vec<String>, fallback_paths: &Vec<String>) -> (targets:
    Vec<String>)
    ensures
        text_views(targets@) == if referenced@.len() == 0 {
            without_repeats(text_views(fallback_paths@), fallback_paths@.len() as int)
        } else {
            without_repeats(text_views(referenced@), referenced@.len() as int)
        },
{
    let source = if referenced.len() == 0 {
        fallback_paths
    } else {
        referenced
    };
    let mut targets: Vec<String> = Vec::new();
    let mut i: usize = 0;
    while i < source.len()
        invariant
            i <= source.len(),
            text_views(targets@) == without_repeats(text_views(source@), i as int),
        decreases source.len() - i,
    {
        assert(text_views(source@)[i as int] == source@[i as int]@);
        let repeat = if i > 0 {
            assert(text_views(source@)[i - 1] == source@[i - 1]@);
            str_eq(source[i].as_str(), source[i - 1].as_str())
        } else {
            false
        };
        if !repeat {
            let ghost before = text_views(targets@);
            targets.push(source[i].clone());
            assert(text_views(targets@) == before.push(source@[i as int]@));
        }
        i += 1;
    }
    targets
}

/// Whether group or others may write a file with these permission bits.
pub open spec fn is_writable_by_others(mode: u32) -> bool {
    mode & 0o022 != 0
}

/// What is wrong with a module file, if anything: it does not open, or it
/// can be written by more than its owner.
pub open spec fn module_fault(module: ProbedModule) -> Option<Seq<char>> {
    match module.probe {
        ModuleProbe::Opened { mode: Some(bits) } => if is_writable_by_others(bits) {
            Some(
                module.path@ + " is world/group-writable (mode "@ + octal_digits(
                    (bits & 0o777) as nat,
                ) + ")"@,
            )
        } else {
            None
        },
        ModuleProbe::Opened { mode: None } => None,
        ModuleProbe::Failed(cause) => Some(module.path@ + ": "@ + cause@),
    }
}

/// Of the first `upto` module files, what is wrong with those that have a
/// fault.
pub open spec fn module_failures(modules: Seq<ProbedModule>, upto: int) -> Seq<Seq<char>>
    decreases upto,
{
    if upto <= 0 || upto > modules.len() {
        seq![]
    } else {
        match module_fault(modules[upto - 1]) {
            Some(fault) => module_failures(modules, upto - 1).push(fault),
            None => module_failures(modules, upto - 1),
        }
    }
}

/// Of the first `upto` module files, the paths of those without a fault.
pub open spec fn module_passes(modules: Seq<ProbedModule>, upto: int) -> Seq<Seq<char>>
    decreases upto,
{
    if upto <= 0 || upto > modules.len() {
        seq![]
    } else {
        match module_fault(modules[upto - 1]) {
            Some(_) => module_passes(modules, upto - 1),
            None => module_passes(modules, upto - 1).push(modules[upto - 1].path@),
        }
    }
}

/// The paths of the module files.
pub open spec fn module_paths(modules: Seq<ProbedModule>) -> Seq<Seq<char>> {
    Seq::new(modules.len(), |i: int| modules[i].path@)
}

/// The status of the module check: a pass where every file is sound, a
/// warning where nothing is sound but nothing was named either, a failure
/// otherwise.
pub open spec fn module_status(named: bool, modules: Seq<ProbedModule>) -> CheckStatus {
    let n = modules.len() as int;
    if module_passes(modules, n).len() == 0 {
        if named {
            CheckStatus::Fail
        } else {
            CheckStatus::Warn
        }
    } else if module_failures(modules, n).len() == 0 {
        CheckStatus::Pass
    } else {
        CheckStatus::Fail
    }
}

/// What the module check says.
pub open spec fn module_message(named: bool, modules: Seq<ProbedModule>) -> Seq<char> {
    let n = modules.len() as int;
    let passes = module_passes(modules, n);
    let failures = module_failures(modules, n);
    if passes.len() == 0 {
        if named {
            "PAM module validation failed: "@ + joined(failures, "; "@, failures.len() as int)
        } else {
            "No pam_chissu reference to validate; searched "@ + joined(
                module_paths(modules),
                ", "@,
                n,
            )
        }
    } else if failures.len() == 0 {
        "Validated PAM module(s): "@ + joined(passes, ", "@, passes.len() as int)
    } else {
        "Some PAM modules invalid: "@ + joined(failures, ", "@, failures.len() as int) + "; ok: "@
            + joined(passes, ", "@, passes.len() as int)
    }
}

/// Checks the module files that were looked at. `named` tells whether the
/// stack files named them, or whether the usual places were searched.
pub fn check_pam_module(named: bool, modules: &Vec<ProbedModule>) -> (made: DoctorCheck)
    ensures
        is_check(
            made,
            CHECK_PAM_MODULE@,
            module_status(named, modules@),
            module_message(named, modules@),
            if module_status(named, modules@) == CheckStatus::Pass {
                Some(
                    joined(
                        module_passes(modules@, modules@.len() as int),
                        ", "@,
                        module_passes(modules@, modules@.len() as int).len() as int,
                    ),
                )
            } else {
                None
            },
            None,
        ),
{
    let mut failures: Vec<String> = Vec::new();
    let mut passes: Vec<String> = Vec::new();
    let mut paths: Vec<String> = Vec::new();
    let mut i: usize = 0;
    while i < modules.len()
        invariant
            i <= modules.len(),
            text_views(failures@) == module_failures(modules@, i as int),
            text_views(passes@) == module_passes(modules@, i as int),
            text_views(paths@) == module_paths(modules@).take(i as int),
        decreases modules.len() - i,
    {
        let module = &modules[i];
        let fault: Option<String> = match &module.probe {
            ModuleProbe::Opened { mode: Some(bits) } => {
                if *bits & 0o022 != 0 {
                    let mut m = words2(module.path.as_str(), " is world/group-writable (mode ");
                    let shown = octal((*bits & 0o777) as u64);
                    m.append(shown.as_str());
                    m.append(")");
                    Some(m)
                } else {
                    None
                }
            },
            ModuleProbe::Opened { mode: None } => None,
            ModuleProbe::Failed(cause) => Some(
                words3(module.path.as_str(), ": ", cause.as_str()),
            ),
        };
        let ghost f = text_views(failures@);
        let ghost p = text_views(passes@);
        let ghost q = text_views(paths@);
        match fault {
            Some(m) => {
                failures.push(m);
                assert(text_views(failures@) == f.push(module_fault(modules@[i as int])->0));
            },
            None => {
                passes.push(module.path.clone());
                assert(text_views(passes@) == p.push(modules@[i as int].path@));
            },
        }
        paths.push(module.path.clone());
        assert(text_views(paths@) == q.push(modules@[i as int].path@));
        assert(module_paths(modules@).take(i + 1) == module_paths(modules@).take(i as int).push(
            modules@[i as int].path@,
        ));
        i += 1;
    }
    assert(module_paths(modules@).take(modules@.len() as int) == module_paths(modules@));
    if passes.len() == 0 {
        if named {
            let listed = join(&failures, "; ");
            check(
                CHECK_PAM_MODULE,
                CheckStatus::Fail,
                words2("PAM module validation failed: ", listed.as_str()),
                None,
                None,
            )
        } else {
            let listed = display_paths(&paths);
            check(
                CHECK_PAM_MODULE,
                CheckStatus::Warn,
                words2("No pam_chissu reference to validate; searched ", listed.as_str()),
                None,
                None,
            )
        }
    } else if failures.len() == 0 {
        let listed = join(&passes, ", ");
        check(
            CHECK_PAM_MODULE,
            CheckStatus::Pass,
            words2("Validated PAM module(s): ", listed.as_str()),
            Some(listed),
            None,
        )
    } else {
        let bad = join(&failures, ", ");
        let good = join(&passes, ", ");
        check(
            CHECK_PAM_MODULE,
            CheckStatus::Fail,
            words4("Some PAM modules invalid: ", bad.as_str(), "; ok: ", good.as_str()),
            None,
            None,
        )
    }
}

/// One entry of the directory of stack files.
#[derive(Debug, Clone, PartialEq, Eq)]
pub struct StackFile {
    pub name: String,
    /// Whether the entry is a regular file.
    pub is_file: bool,
    /// What the file holds, where it could be read as text.
    pub contents: Option<String>,
}

/// The entry in `file` that mentions `pam_chissu`, if `file` is a regular
/// file that could be read and has such an entry.
pub open spec fn reference_in(file: StackFile) -> Option<Seq<char>> {
    if !file.is_file {
        None
    } else {
        match file.contents {
            Some(contents) => first_reference(lines_of(contents@), 0),
            None => None,
        }
    }
}

/// Of the first `upto` files, the names of those that mention `pam_chissu`.
pub open spec fn matched_files(files: Seq<StackFile>, upto: int) -> Seq<Seq<char>>
    decreases upto,
{
    if upto <= 0 || upto > files.len() {
        seq![]
    } else {
        match reference_in(files[upto - 1]) {
            Some(_) => matched_files(files, upto - 1).push(files[upto - 1].name@),
            None => matched_files(files, upto - 1),
        }
    }
}

/// The module files that the first `upto` files name.
pub open spec fn referenced_modules(files: Seq<StackFile>, upto: int) -> Seq<Seq<char>>
    decreases upto,
{
    if upto <= 0 || upto > files.len() {
        seq![]
    } else {
        match reference_in(files[upto - 1]) {
            Some(entry) => referenced_modules(files, upto - 1) + module_paths_in(entry),
            None => referenced_modules(files, upto - 1),
        }
    }
}

/// What the check of the stack files says.
pub open spec fn stack_message(dir: Seq<char>, listing: Result<Vec<StackFile>, String>) -> Seq<
    char,
> {
    match listing {
        Ok(files) => {
            let matched = matched_files(files@, files@.len() as int);
            if matched.len() == 0 {
                "No pam_chissu entry found under "@ + dir + "; add to your target service file"@
            } else {
                "libpam_chissu.so referenced in: "@ + joined(matched, ", "@, matched.len() as int)
            }
        },
        Err(cause) => "Failed to read "@ + dir + ": "@ + cause@,
    }
}

/// The status of the check of the stack files: a pass where a file mentions
/// `pam_chissu`, a warning where none does, a failure where the directory
/// could not be listed.
pub open spec fn stack_status(listing: Result<Vec<StackFile>, String>) -> CheckStatus {
    match listing {
        Ok(files) => if matched_files(files@, files@.len() as int).len() == 0 {
            CheckStatus::Warn
        } else {
            CheckStatus::Pass
        },
        Err(_) => CheckStatus::Fail,
    }
}

/// Checks the stack files under `pamd_dir`, and collects the module files
/// they name.
pub fn check_pam_stack(pamd_dir: &str, listing: &Result<Vec<StackFile>, String>) -> (checked: (
    DoctorCheck,
    Vec<String>,
))
    ensures
        is_check(
            checked.0,
            CHECK_PAM_STACK@,
            stack_status(*listing),
            stack_message(pamd_dir@, *listing),
            Some(pamd_dir@),
            None,
        ),
        text_views(checked.1@) == match *listing {
            Ok(files) => referenced_modules(files@, files@.len() as int),
            Err(_) => Seq::<Seq<char>>::empty(),
        },
{
    match listing {
        Ok(files) => {
            let mut matched: Vec<String> = Vec::new();
            let mut referenced: Vec<String> = Vec::new();
            let mut i: usize = 0;
            while i < files.len()
                invariant
                    i <= files.len(),
                    text_views(matched@) == matched_files(files@, i as int),
                    text_views(referenced@) == referenced_modules(files@, i as int),
                decreases files.len() - i,
            {
                let file = &files[i];
                if file.is_file {
                    if let Some(contents) = &file.contents {
                        if file_references_pam_chissu(contents.as_str(), &mut referenced) {
                            let ghost before = text_views(matched@);
                            matched.push(file.name.clone());
                            assert(text_views(matched@) == before.push(files@[i as int].name@));
                        }
                    }
                }
                i += 1;
            }
            if matched.len() == 0 {
                (
                    check(
                        CHECK_PAM_STACK,
                        CheckStatus::Warn,
                        words3(
                            "No pam_chissu entry found under ",
                            pamd_dir,
                            "; add to your target service file",
                        ),
                        Some(pamd_dir.to_owned()),
                        None,
                    ),
                    referenced,
                )
            } else {
                let listed = join(&matched, ", ");
                (
                    check(
                        CHECK_PAM_STACK,
                        CheckStatus::Pass,
                        words2("libpam_chissu.so referenced in: ", listed.as_str()),
                        Some(pamd_dir.to_owned()),
                        None,
                    ),
                    referenced,
                )
            }
        },
        Err(cause) => (
            check(
                CHECK_PAM_STACK,
                CheckStatus::Fail,
                words4("Failed to read ", pamd_dir, ": ", cause.as_str()),
                Some(pamd_dir.to_owned()),
                None,
            ),
            Vec::new(),
        ),
    }
}

} // verus!
