//! Settings file location and backup naming.
//!
//! The settings live at `$XDG_CONFIG_HOME/luminos/config.toml`, falling back
//! to `$HOME/.config/luminos/config.toml`. A corrupt file is moved aside to
//! `config.toml.bak`, or, when that is taken, to the first free numbered
//! `config.toml.bak.<n>` (`n` = 1..=1000) so that an earlier backup is never
//! overwritten; when all are taken, `config.toml.bak.1000` is reused. Paths
//! follow Unix rules: a component starting with `/` is absolute, and joining
//! inserts a `/` unless the base is empty or already ends with one.
use vstd::prelude::*;
use crate::text::{decimal_digits, decimal_text, join_text};

verus! {

/// Current on-disk schema version.
pub const CURRENT_SCHEMA_VERSION: u32 = 1;

/// Application sub-directory under the platform config directory.
pub const APP_DIR: &'static str = "luminos";

/// Config file name within the application config directory.
pub const CONFIG_FILE_NAME: &'static str = "config.toml";

/// Backup file name used when a corrupt config is recovered.
pub const BACKUP_FILE_NAME: &'static str = "config.toml.bak";

/// Highest numbered backup slot probed.
pub const MAX_NUMBERED_BACKUPS: u32 = 1000;

/// The schema version assumed when a file omits it.
pub fn default_schema_version() -> (r: u32)
    ensures
        r == CURRENT_SCHEMA_VERSION,
{
    CURRENT_SCHEMA_VERSION
}

/// A Unix path is absolute when it starts with `/`.
pub open spec fn path_is_absolute(p: Seq<char>) -> bool {
    p.len() > 0 && p[0] == '/'
}

/// `base` joined with `part`: `part` itself when absolute, otherwise `part`
/// appended after a `/` separator (omitted when `base` is empty or already
/// ends with `/`).
pub open spec fn path_join(base: Seq<char>, part: Seq<char>) -> Seq<char> {
    if path_is_absolute(part) {
        part
    } else if base.len() == 0 || base.last() == '/' {
        base + part
    } else {
        base + seq!['/'] + part
    }
}

/// The config directory: an absolute `XDG_CONFIG_HOME`, else
/// `$HOME/.config`, else none.
pub open spec fn config_dir_of(xdg_config_home: Option<Seq<char>>, home: Option<Seq<char>>) -> Option<Seq<char>> {
    match xdg_config_home {
        Some(x) if path_is_absolute(x) => Some(x),
        _ => match home {
            Some(h) => Some(path_join(h, ".config"@)),
            None => None,
        },
    }
}

/// Whether `p` starts with `/`.
pub fn is_absolute_path(p: &str) -> (r: bool)
    ensures
        r == path_is_absolute(p@),
{
    p.unicode_len() > 0 && p.get_char(0) == '/'
}

/// Joins `part` onto `base` following Unix path rules.
pub fn join_path(base: &str, part: &str) -> (r: String)
    ensures
        r@ == path_join(base@, part@),
{
    proof {
        reveal_strlit("/");
    }
    if is_absolute_path(part) {
        return String::from_str(part);
    }
    let n = base.unicode_len();
    if n == 0 || base.get_char(n - 1) == '/' {
        join_text(base, part)
    } else {
        let mut s = join_text(base, "/");
        s.append(part);
        s
    }
}

/// Resolves the `config.toml` path from the values of `XDG_CONFIG_HOME` and
/// `HOME`: `<XDG_CONFIG_HOME>/luminos/config.toml` when it is absolute,
/// otherwise `<HOME>/.config/luminos/config.toml`; `None` when neither is
/// usable.
pub fn resolve_config_path(xdg_config_home: Option<String>, home: Option<String>) -> (r: Option<String>)
    ensures
        match config_dir_of(
            match xdg_config_home { Some(x) => Some(x@), None => None },
            match home { Some(h) => Some(h@), None => None },
        ) {
            Some(dir) => r matches Some(p) && p@ == path_join(path_join(dir, APP_DIR@), CONFIG_FILE_NAME@),
            None => r is None,
        },
{
    let dir = match xdg_config_home {
        Some(x) if is_absolute_path(x.as_str()) => x,
        _ => match home {
            Some(h) => join_path(h.as_str(), ".config"),
            None => {
                return None;
            },
        },
    };
    let app = join_path(dir.as_str(), APP_DIR);
    Some(join_path(app.as_str(), CONFIG_FILE_NAME))
}

/// Picks the `config.toml` path: inside the platform's project config
/// directory when the platform reports one, otherwise by the XDG rules of
/// [`resolve_config_path`] from `XDG_CONFIG_HOME` and `HOME`.
pub fn choose_config_path(project_config_dir: Option<String>, xdg_config_home: Option<String>, home: Option<String>) -> (r: Option<String>)
    ensures
        match project_config_dir {
            Some(d) => r matches Some(p) && p@ == path_join(d@, CONFIG_FILE_NAME@),
            None => match config_dir_of(
                match xdg_config_home { Some(x) => Some(x@), None => None },
                match home { Some(h) => Some(h@), None => None },
            ) {
                Some(dir) => r matches Some(p) && p@ == path_join(path_join(dir, APP_DIR@), CONFIG_FILE_NAME@),
                None => r is None,
            },
        },
{
    match project_config_dir {
        Some(d) => Some(join_path(d.as_str(), CONFIG_FILE_NAME)),
        None => resolve_config_path(xdg_config_home, home),
    }
}

/// The backup file name for `slot`: `config.toml.bak` for slot 0,
/// `config.toml.bak.<slot>` otherwise.
pub open spec fn backup_name(slot: nat) -> Seq<char> {
    if slot == 0 {
        BACKUP_FILE_NAME@
    } else {
        BACKUP_FILE_NAME@ + "."@ + decimal_digits(slot)
    }
}

/// The backup file name for `slot`.
pub fn backup_file_name(slot: u32) -> (r: String)
    ensures
        r@ == backup_name(slot as nat),
{
    if slot == 0 {
        String::from_str(BACKUP_FILE_NAME)
    } else {
        let mut s = join_text(BACKUP_FILE_NAME, ".");
        let digits = decimal_text(slot as u64);
        s.append(digits.as_str());
        s
    }
}

/// The outcome of probing one backup slot.
#[derive(Debug, Clone, Copy, PartialEq, Eq, Structural)]
pub enum BackupProbe {
    /// Back up to this slot.
    Use(u32),
    /// This slot is taken; probe the given one next.
    Next(u32),
}

/// One probing step: a free slot is used; a taken slot moves on to the next,
/// except the last slot, which is reused.
pub open spec fn backup_step(slot: nat, taken: bool) -> BackupProbe {
    if !taken {
        BackupProbe::Use(slot as u32)
    } else if slot >= MAX_NUMBERED_BACKUPS {
        BackupProbe::Use(MAX_NUMBERED_BACKUPS)
    } else {
        BackupProbe::Next((slot + 1) as u32)
    }
}

/// Decides what to do after learning whether backup `slot` already exists.
pub fn next_backup_probe(slot: u32, taken: bool) -> (r: BackupProbe)
    requires
        slot <= MAX_NUMBERED_BACKUPS,
    ensures
        r == backup_step(slot as nat, taken),
{
    if !taken {
        BackupProbe::Use(slot)
    } else if slot >= MAX_NUMBERED_BACKUPS {
        BackupProbe::Use(MAX_NUMBERED_BACKUPS)
    } else {
        BackupProbe::Next(slot + 1)
    }
}

/// The slot reached by probing from `slot`, where `taken[k]` tells whether
/// slot `k` exists.
pub open spec fn backup_slot_from(taken: Seq<bool>, slot: nat) -> nat
    decreases MAX_NUMBERED_BACKUPS - slot,
{
    if slot >= MAX_NUMBERED_BACKUPS {
        MAX_NUMBERED_BACKUPS as nat
    } else {
        match backup_step(slot, taken[slot as int]) {
            BackupProbe::Use(s) => s as nat,
            BackupProbe::Next(s) => backup_slot_from(taken, s as nat),
        }
    }
}

/// Probing from slot 0 picks the first free slot, or the last slot when
/// every slot is taken: an existing backup is never chosen unless all are.
pub proof fn lemma_backup_picks_first_free(taken: Seq<bool>, slot: nat)
    requires
        taken.len() == MAX_NUMBERED_BACKUPS + 1,
        slot <= MAX_NUMBERED_BACKUPS,
    ensures
        slot <= backup_slot_from(taken, slot) <= MAX_NUMBERED_BACKUPS,
        forall|k: int| slot <= k < backup_slot_from(taken, slot) ==> #[trigger] taken[k],
        backup_slot_from(taken, slot) < MAX_NUMBERED_BACKUPS ==> !taken[backup_slot_from(taken, slot) as int],
    decreases MAX_NUMBERED_BACKUPS - slot,
{
    if slot < MAX_NUMBERED_BACKUPS && taken[slot as int] {
        lemma_backup_picks_first_free(taken, slot + 1);
    }
}

/// The name of the temporary file a save writes next to the settings file
/// before renaming it over it: `.<file name>.<process id>.<sequence>.tmp`,
/// where the file name is `config.toml` when the path has none.
pub open spec fn temp_name(file_name: Option<Seq<char>>, pid: nat, sequence: nat) -> Seq<char> {
    let stem = match file_name {
        Some(n) => n,
        None => CONFIG_FILE_NAME@,
    };
    seq!['.'] + stem + seq!['.'] + decimal_digits(pid) + seq!['.'] + decimal_digits(sequence) + seq![
        '.',
        't',
        'm',
        'p',
    ]
}

/// The temporary file name for a save by process `pid`, numbered `sequence`
/// within the process, so concurrent saves never collide.
pub fn temp_file_name(file_name: Option<String>, pid: u32, sequence: u64) -> (r: String)
    ensures
        r@ == temp_name(
            match file_name {
                Some(n) => Some(n@),
                None => None,
            },
            pid as nat,
            sequence as nat,
        ),
{
    proof {
        reveal_strlit(".");
        reveal_strlit(".tmp");
        assert("."@ =~= seq!['.']);
        assert(".tmp"@ =~= seq!['.', 't', 'm', 'p']);
    }
    let stem = match file_name {
        Some(n) => n,
        None => String::from_str(CONFIG_FILE_NAME),
    };
    let mut s = join_text(".", stem.as_str());
    s.append(".");
    let pid_text = decimal_text(pid as u64);
    s.append(pid_text.as_str());
    s.append(".");
    let seq_text = decimal_text(sequence);
    s.append(seq_text.as_str());
    s.append(".tmp");
    s
}

/// What reading the settings file gave.
#[derive(Debug, Clone, Copy, PartialEq, Eq, Structural)]
pub enum ReadResult {
    /// The file does not exist.
    Missing,
    /// The file exists but could not be read.
    Unreadable,
    /// The file was read and parsed (`true`) or failed to parse (`false`).
    Read(bool),
}

/// What loading the settings does after reading the file.
#[derive(Debug, Clone, Copy, PartialEq, Eq, Structural)]
pub enum LoadOutcome {
    /// Use the default settings (no file yet).
    Defaults,
    /// Report the read error.
    ReadError,
    /// Use the parsed settings.
    Parsed,
    /// Move the corrupt file to a backup and use the default settings.
    RecoverToDefaults,
}

/// Decides the outcome of loading the settings: a missing file gives the
/// defaults, an unreadable one an error, a parsed one its settings, and a
/// corrupt one is backed up and replaced by the defaults.
pub fn load_outcome(read: ReadResult) -> (r: LoadOutcome)
    ensures
        r == match read {
            ReadResult::Missing => LoadOutcome::Defaults,
            ReadResult::Unreadable => LoadOutcome::ReadError,
            ReadResult::Read(parsed) => if parsed {
                LoadOutcome::Parsed
            } else {
                LoadOutcome::RecoverToDefaults
            },
        },
        (r == LoadOutcome::ReadError) == (read == ReadResult::Unreadable),
{
    match read {
        ReadResult::Missing => LoadOutcome::Defaults,
        ReadResult::Unreadable => LoadOutcome::ReadError,
        ReadResult::Read(parsed) => if parsed {
            LoadOutcome::Parsed
        } else {
            LoadOutcome::RecoverToDefaults
        },
    }
}

} // verus!
