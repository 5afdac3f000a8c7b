//! Picking the login session whose environment the key helper borrows.
//!
//! The login manager is asked over the system bus by the caller, who reports
//! the sessions it lists as [`SessionRecord`]s. Which session counts, and
//! what environment follows from it, is decided here.
use crate::text::{
    str_eq, strip_prefix, trim, trim_end_matches, trimmed, without_prefix, without_trailing,
};
use vstd::prelude::*;
use vstd::string::StringExecFns;

verus! {

/// The view of an optional text.
pub open spec fn opt_text(text: Option<String>) -> Option<Seq<char>> {
    match text {
        Some(s) => Some(s@),
        None => None,
    }
}

/// One session of the user, as the login manager describes it.
#[derive(Debug, Clone, PartialEq, Eq)]
pub struct SessionRecord {
    pub id: String,
    pub seat: Option<String>,
    pub tty: Option<String>,
    pub state: String,
    pub class: String,
    pub active: bool,
    pub display: Option<String>,
    pub session_type: Option<String>,
}

/// What the login manager says of a session, property by property; a
/// property that could not be read is absent.
#[derive(Debug, Clone, PartialEq, Eq)]
pub struct SessionProperties {
    pub id: String,
    pub seat: Option<String>,
    pub tty: Option<String>,
    pub state: Option<String>,
    pub class: Option<String>,
    pub active: Option<bool>,
    pub display: Option<String>,
    pub session_type: Option<String>,
}

/// A text that is known, or `unknown`.
pub open spec fn known_or_unknown(text: Option<Seq<char>>) -> Seq<char> {
    match normalized_text(text) {
        Some(t) => t,
        None => "unknown"@,
    }
}

/// The terminal of a session, where one is reported.
pub open spec fn reported_tty(tty: Option<Seq<char>>) -> Option<Seq<char>> {
    match tty {
        Some(t) => normalized_tty(t),
        None => None,
    }
}

/// Whether `record` is what the properties of a session come to: texts
/// without surrounding whitespace, a terminal without `/dev/` in front,
/// `unknown` for a state or class that is missing or empty, and a session
/// that does not say whether it is active taken as inactive.
pub open spec fn is_record_of(record: SessionRecord, properties: SessionProperties) -> bool {
    &&& record.id@ == properties.id@
    &&& opt_text(record.seat) == normalized_text(opt_text(properties.seat))
    &&& opt_text(record.tty) == reported_tty(opt_text(properties.tty))
    &&& record.state@ == known_or_unknown(opt_text(properties.state))
    &&& record.class@ == known_or_unknown(opt_text(properties.class))
    &&& record.active == match properties.active {
        Some(active) => active,
        None => false,
    }
    &&& opt_text(record.display) == normalized_text(opt_text(properties.display))
    &&& opt_text(record.session_type) == normalized_text(opt_text(properties.session_type))
}

fn or_unknown(text: Option<String>) -> (out: String)
    ensures
        out@ == known_or_unknown(opt_text(text)),
{
    match normalize_string(text) {
        Some(t) => t,
        None => "unknown".to_owned(),
    }
}

impl SessionRecord {
    /// The record of a session with these properties.
    pub fn from_properties(properties: SessionProperties) -> (record: SessionRecord)
        ensures
            is_record_of(record, properties),
    {
        let tty = match &properties.tty {
            Some(t) => normalize_tty(t.as_str()),
            None => None,
        };
        SessionRecord {
            id: properties.id,
            seat: normalize_string(properties.seat),
            tty,
            state: or_unknown(properties.state),
            class: or_unknown(properties.class),
            active: match properties.active {
                Some(active) => active,
                None => false,
            },
            display: normalize_string(properties.display),
            session_type: normalize_string(properties.session_type),
        }
    }
}

/// A copy of an optional text.
pub fn copy_of(text: &Option<String>) -> (copy: Option<String>)
    ensures
        opt_text(copy) == opt_text(*text),
{
    match text {
        Some(s) => Some(s.clone()),
        None => None,
    }
}

impl SessionRecord {
    /// A copy of this record.
    pub fn duplicate(&self) -> (copy: SessionRecord)
        ensures
            copy.id@ == self.id@,
            opt_text(copy.seat) == opt_text(self.seat),
            opt_text(copy.tty) == opt_text(self.tty),
            copy.state@ == self.state@,
            copy.class@ == self.class@,
            copy.active == self.active,
            opt_text(copy.display) == opt_text(self.display),
            opt_text(copy.session_type) == opt_text(self.session_type),
    {
        SessionRecord {
            id: self.id.clone(),
            seat: copy_of(&self.seat),
            tty: copy_of(&self.tty),
            state: self.state.clone(),
            class: self.class.clone(),
            active: self.active,
            display: copy_of(&self.display),
            session_type: copy_of(&self.session_type),
        }
    }
}

/// What is known of the environment of the chosen session.
#[derive(Debug, Clone, PartialEq, Eq)]
pub struct SessionEnvironment {
    pub session_id: String,
    pub seat: Option<String>,
    pub tty: Option<String>,
    pub session_type: Option<String>,
    pub display: Option<String>,
    pub runtime_dir: Option<String>,
    pub dbus_address: Option<String>,
}

/// The handle through which the login manager is consulted.
#[derive(Debug, Default, Clone, Copy)]
pub struct LogindInspector;

impl LogindInspector {
    /// A handle through which the login manager can be consulted.
    pub fn new() -> Self {
        LogindInspector
    }

    /// What the sessions the login manager listed come to: the environment
    /// of the session that counts, if there is any session at all.
    pub fn inspect(
        &self,
        records: &Vec<SessionRecord>,
        runtime_dir: Option<String>,
        tty_hint: Option<&str>,
    ) -> (found: Option<SessionEnvironment>)
        ensures
            found is Some <==> records@.len() > 0,
            found matches Some(env) ==> selected_index(records@, hint_of(tty_hint)) matches Some(i)
                && is_environment_of(env, records@[i], opt_text(runtime_dir)),
    {
        match select_session(records, tty_hint) {
            Some(record) => {
                proof {
                    lemma_some_session_is_selected(records@, hint_of(tty_hint));
                }
                Some(SessionEnvironment::from_record(record.duplicate(), runtime_dir))
            },
            None => {
                proof {
                    lemma_some_session_is_selected(records@, hint_of(tty_hint));
                }
                None
            },
        }
    }
}

/// A terminal name as sessions carry it: without surrounding whitespace and
/// without `/dev/` in front; nothing where nothing but whitespace is given.
pub open spec fn normalized_tty(value: Seq<char>) -> Option<Seq<char>> {
    let text = trimmed(value);
    if text.len() == 0 {
        None
    } else {
        match without_prefix(text, "/dev/"@) {
            Some(rest) => Some(rest),
            None => Some(text),
        }
    }
}

/// Normalizes a terminal name.
pub fn normalize_tty(value: &str) -> (tty: Option<String>)
    ensures
        opt_text(tty) == normalized_tty(value@),
{
    let text = trim(value);
    if text.as_str().unicode_len() == 0 {
        return None;
    }
    match strip_prefix(text.as_str(), "/dev/") {
        Some(rest) => Some(rest),
        None => Some(text),
    }
}

/// A text without surrounding whitespace; nothing where nothing but
/// whitespace is given.
pub open spec fn normalized_text(value: Option<Seq<char>>) -> Option<Seq<char>> {
    match value {
        None => None,
        Some(text) => if trimmed(text).len() == 0 {
            None
        } else {
            Some(trimmed(text))
        },
    }
}

/// Normalizes an optional text.
pub fn normalize_string(value: Option<String>) -> (text: Option<String>)
    ensures
        opt_text(text) == normalized_text(opt_text(value)),
{
    match value {
        None => None,
        Some(v) => {
            let text = trim(v.as_str());
            if text.as_str().unicode_len() == 0 {
                None
            } else {
                Some(text)
            }
        },
    }
}

/// The terminal hint in normalized form.
pub open spec fn hint_of(tty_hint: Option<&str>) -> Option<Seq<char>> {
    match tty_hint {
        Some(hint) => normalized_tty(hint@),
        None => None,
    }
}

/// Whether the session is the active session of a user.
pub open spec fn is_active_user(s: SessionRecord) -> bool {
    s.active && s.class@ == "user"@
}

/// Whether the session is the active session of a user on this terminal.
pub open spec fn is_on_tty(s: SessionRecord, hint: Option<Seq<char>>) -> bool {
    hint matches Some(tty) && is_active_user(s) && opt_text(s.tty) == Some(tty)
}

/// Whether the session is a user's and in the state `active`.
pub open spec fn is_user_in_active_state(s: SessionRecord) -> bool {
    s.class@ == "user"@ && s.state@ == "active"@
}

/// Whether the session is a user's.
pub open spec fn is_user(s: SessionRecord) -> bool {
    s.class@ == "user"@
}

/// How well a session fits, 0 being best: the active user session on the
/// hinted terminal, an active user session, a user session in the state
/// `active`, a user session, any session.
pub open spec fn session_rank(s: SessionRecord, hint: Option<Seq<char>>) -> nat {
    if is_on_tty(s, hint) {
        0
    } else if is_active_user(s) {
        1
    } else if is_user_in_active_state(s) {
        2
    } else if is_user(s) {
        3
    } else {
        4
    }
}

/// The first session at or after `from` that fits as well as `rank` or
/// better.
pub open spec fn first_within(
    sessions: Seq<SessionRecord>,
    hint: Option<Seq<char>>,
    rank: nat,
    from: int,
) -> Option<int>
    decreases sessions.len() - from,
{
    if from < 0 || from >= sessions.len() {
        None
    } else if fits_within(sessions[from], hint, rank) {
        Some(from)
    } else {
        first_within(sessions, hint, rank, from + 1)
    }
}

/// Whether the session meets the criterion of this rank.
pub open spec fn fits_within(s: SessionRecord, hint: Option<Seq<char>>, rank: nat) -> bool {
    if rank == 0 {
        is_on_tty(s, hint)
    } else if rank == 1 {
        is_active_user(s)
    } else if rank == 2 {
        is_user_in_active_state(s)
    } else if rank == 3 {
        is_user(s)
    } else {
        true
    }
}

/// The first session that meets the first criterion that any session meets.
pub open spec fn first_from_rank(sessions: Seq<SessionRecord>, hint: Option<Seq<char>>, rank: nat) -> Option<
    int,
>
    decreases 5 - rank,
{
    if rank >= 4 {
        first_within(sessions, hint, 4, 0)
    } else {
        match first_within(sessions, hint, rank, 0) {
            Some(i) => Some(i),
            None => first_from_rank(sessions, hint, rank + 1),
        }
    }
}

/// The index of the session that counts.
pub open spec fn selected_index(sessions: Seq<SessionRecord>, hint: Option<Seq<char>>) -> Option<
    int,
> {
    first_from_rank(sessions, hint, 0)
}

/// The first session that meets a criterion meets it, and none before it
/// does; where none is found, none meets it.
pub proof fn lemma_first_within(
    sessions: Seq<SessionRecord>,
    hint: Option<Seq<char>>,
    rank: nat,
    from: int,
)
    requires
        0 <= from <= sessions.len(),
    ensures
        match first_within(sessions, hint, rank, from) {
            Some(i) => from <= i < sessions.len() && fits_within(sessions[i], hint, rank)
                && forall|j: int| from <= j < i ==> !fits_within(#[trigger] sessions[j], hint, rank),
            None => forall|j: int|
                from <= j < sessions.len() ==> !fits_within(#[trigger] sessions[j], hint, rank),
        },
    decreases sessions.len() - from,
{
    if from < sessions.len() && !fits_within(sessions[from], hint, rank) {
        lemma_first_within(sessions, hint, rank, from + 1);
    }
}

/// Some session is selected whenever there is one, and none otherwise.
pub proof fn lemma_some_session_is_selected(sessions: Seq<SessionRecord>, hint: Option<Seq<char>>)
    ensures
        selected_index(sessions, hint) is Some <==> sessions.len() > 0,
        selected_index(sessions, hint) matches Some(i) ==> 0 <= i < sessions.len(),
{
    lemma_first_within(sessions, hint, 0, 0);
    lemma_first_within(sessions, hint, 1, 0);
    lemma_first_within(sessions, hint, 2, 0);
    lemma_first_within(sessions, hint, 3, 0);
    lemma_first_within(sessions, hint, 4, 0);
    reveal_with_fuel(first_from_rank, 6);
    if sessions.len() > 0 {
        assert(fits_within(sessions[0], hint, 4));
    }
}

fn text_is(text: &String, wanted: &str) -> (same: bool)
    ensures
        same == (text@ == wanted@),
{
    str_eq(text.as_str(), wanted)
}

fn fits(s: &SessionRecord, hint: &Option<String>, rank: u8) -> (fit: bool)
    requires
        rank <= 4,
    ensures
        fit == fits_within(*s, opt_text(*hint), rank as nat),
{
    if rank == 0 {
        match hint {
            None => false,
            Some(wanted) => {
                if !(s.active && text_is(&s.class, "user")) {
                    return false;
                }
                match &s.tty {
                    Some(tty) => str_eq(tty.as_str(), wanted.as_str()),
                    None => false,
                }
            },
        }
    } else if rank == 1 {
        s.active && text_is(&s.class, "user")
    } else if rank == 2 {
        text_is(&s.class, "user") && text_is(&s.state, "active")
    } else if rank == 3 {
        text_is(&s.class, "user")
    } else {
        true
    }
}

fn find_within(sessions: &Vec<SessionRecord>, hint: &Option<String>, rank: u8) -> (found: Option<
    usize,
>)
    requires
        rank <= 4,
    ensures
        match found {
            Some(i) => i < sessions@.len() && first_within(
                sessions@,
                opt_text(*hint),
                rank as nat,
                0,
            ) == Some(i as int),
            None => first_within(sessions@, opt_text(*hint), rank as nat, 0) is None,
        },
{
    let mut i: usize = 0;
    while i < sessions.len()
        invariant
            i <= sessions.len(),
            rank <= 4,
            first_within(sessions@, opt_text(*hint), rank as nat, 0) == first_within(
                sessions@,
                opt_text(*hint),
                rank as nat,
                i as int,
            ),
        decreases sessions.len() - i,
    {
        if fits(&sessions[i], hint, rank) {
            return Some(i);
        }
        i += 1;
    }
    None
}

/// Picks the session that counts: the user's active session on the hinted
/// terminal if there is one, else the first active user session, else the
/// first user session in the state `active`, else the first user session,
/// else the first session.
pub fn select_session<'a>(sessions: &'a Vec<SessionRecord>, tty_hint: Option<&str>) -> (selected:
    Option<&'a SessionRecord>)
    ensures
        match selected_index(sessions@, hint_of(tty_hint)) {
            Some(i) => 0 <= i < sessions@.len() && selected == Some(&sessions@[i]),
            None => selected is None,
        },
{
    let hint: Option<String> = match tty_hint {
        Some(text) => normalize_tty(text),
        None => None,
    };
    proof {
        reveal_with_fuel(first_from_rank, 6);
    }
    let mut rank: u8 = 0;
    while rank < 4
        invariant
            rank <= 4,
            opt_text(hint) == hint_of(tty_hint),
            selected_index(sessions@, hint_of(tty_hint)) == first_from_rank(
                sessions@,
                hint_of(tty_hint),
                rank as nat,
            ),
        decreases 4 - rank,
    {
        match find_within(sessions, &hint, rank) {
            Some(i) => {
                return Some(&sessions[i]);
            },
            None => {},
        }
        rank += 1;
    }
    match find_within(sessions, &hint, 4) {
        Some(i) => Some(&sessions[i]),
        None => None,
    }
}

/// The address of the session bus under a runtime directory: none where the
/// directory is unknown or empty.
pub open spec fn bus_address(runtime_dir: Option<Seq<char>>) -> Option<Seq<char>> {
    match runtime_dir {
        Some(dir) => if dir.len() == 0 {
            None
        } else {
            Some("unix:path="@ + without_trailing(dir, '/') + "/bus"@)
        },
        None => None,
    }
}

/// Whether `env` is the environment that follows from `record` and the
/// user's runtime directory.
pub open spec fn is_environment_of(
    env: SessionEnvironment,
    record: SessionRecord,
    runtime_dir: Option<Seq<char>>,
) -> bool {
    &&& env.session_id@ == record.id@
    &&& opt_text(env.seat) == opt_text(record.seat)
    &&& opt_text(env.tty) == opt_text(record.tty)
    &&& opt_text(env.session_type) == opt_text(record.session_type)
    &&& opt_text(env.display) == opt_text(record.display)
    &&& opt_text(env.runtime_dir) == runtime_dir
    &&& opt_text(env.dbus_address) == bus_address(runtime_dir)
}

/// The environment variables that `env` stands for, in order: the display,
/// the Wayland display where the session is a Wayland session, the runtime
/// directory, and the address of the session bus.
pub open spec fn environment_pairs(env: SessionEnvironment) -> Seq<(Seq<char>, Seq<char>)> {
    let display = match env.display {
        Some(d) => if opt_text(env.session_type) == Some("wayland"@) {
            seq![("DISPLAY"@, d@), ("WAYLAND_DISPLAY"@, d@)]
        } else {
            seq![("DISPLAY"@, d@)]
        },
        None => seq![],
    };
    let runtime = match env.runtime_dir {
        Some(r) => seq![("XDG_RUNTIME_DIR"@, r@)],
        None => seq![],
    };
    let bus = match env.dbus_address {
        Some(a) => seq![("DBUS_SESSION_BUS_ADDRESS"@, a@)],
        None => seq![],
    };
    display + runtime + bus
}

/// The views of name-value pairs.
pub open spec fn pair_views(pairs: Seq<(String, String)>) -> Seq<(Seq<char>, Seq<char>)> {
    Seq::new(pairs.len(), |i: int| (pairs[i].0@, pairs[i].1@))
}

/// The text, or a dash where there is none.
pub open spec fn or_dash(text: Option<String>) -> Seq<char> {
    match text {
        Some(s) => s@,
        None => "-"@,
    }
}

/// One line that describes `env`, with a dash for what is unknown.
pub open spec fn summary_text(env: SessionEnvironment) -> Seq<char> {
    "session="@ + env.session_id@ + " tty="@ + or_dash(env.tty) + " seat="@ + or_dash(env.seat)
        + " type="@ + or_dash(env.session_type) + " display="@ + or_dash(env.display)
        + " runtime="@ + or_dash(env.runtime_dir)
}

fn append_or_dash(out: &mut String, text: &Option<String>)
    ensures
        final(out)@ == old(out)@ + or_dash(*text),
{
    match text {
        Some(s) => out.append(s.as_str()),
        None => out.append("-"),
    }
}

impl SessionEnvironment {
    /// The environment that follows from a session and the user's runtime
    /// directory.
    pub fn from_record(record: SessionRecord, runtime_dir: Option<String>) -> (env:
        SessionEnvironment)
        ensures
            is_environment_of(env, record, opt_text(runtime_dir)),
    {
        let dbus_address = match &runtime_dir {
            Some(dir) => {
                if dir.as_str().unicode_len() == 0 {
                    None
                } else {
                    let mut address = "unix:path=".to_owned();
                    let base = trim_end_matches(dir.as_str(), '/');
                    address.append(base.as_str());
                    address.append("/bus");
                    Some(address)
                }
            },
            None => None,
        };
        SessionEnvironment {
            session_id: record.id,
            seat: record.seat,
            tty: record.tty,
            session_type: record.session_type,
            display: record.display,
            runtime_dir,
            dbus_address,
        }
    }

    /// The environment variables this environment stands for.
    pub fn env_pairs(&self) -> (pairs: Vec<(String, String)>)
        ensures
            pair_views(pairs@) == environment_pairs(*self),
    {
        let mut pairs: Vec<(String, String)> = Vec::new();
        if let Some(display) = &self.display {
            pairs.push(("DISPLAY".to_owned(), display.clone()));
            let wayland = match &self.session_type {
                Some(kind) => str_eq(kind.as_str(), "wayland"),
                None => false,
            };
            if wayland {
                pairs.push(("WAYLAND_DISPLAY".to_owned(), display.clone()));
            }
        }
        if let Some(runtime) = &self.runtime_dir {
            pairs.push(("XDG_RUNTIME_DIR".to_owned(), runtime.clone()));
        }
        if let Some(address) = &self.dbus_address {
            pairs.push(("DBUS_SESSION_BUS_ADDRESS".to_owned(), address.clone()));
        }
        assert(pair_views(pairs@) =~= environment_pairs(*self));
        pairs
    }

    /// One line that describes this environment.
    pub fn summary(&self) -> (line: String)
        ensures
            line@ == summary_text(*self),
    {
        let mut line = "session=".to_owned();
        line.append(self.session_id.as_str());
        line.append(" tty=");
        append_or_dash(&mut line, &self.tty);
        line.append(" seat=");
        append_or_dash(&mut line, &self.seat);
        line.append(" type=");
        append_or_dash(&mut line, &self.session_type);
        line.append(" display=");
        append_or_dash(&mut line, &self.display);
        line.append(" runtime=");
        append_or_dash(&mut line, &self.runtime_dir);
        line
    }
}

} // verus!
