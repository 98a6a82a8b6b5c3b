use luminos::config::{
    backup_file_name, choose_config_path, default_schema_version, join_path, load_outcome,
    next_backup_probe, resolve_config_path, temp_file_name, BackupProbe, LoadOutcome, ReadResult,
    CURRENT_SCHEMA_VERSION, MAX_NUMBERED_BACKUPS,
};

fn s(v: &str) -> Option<String> {
    Some(v.to_string())
}

#[test]
fn config_path_xdg_then_home() {
    let resolved = resolve_config_path(s("/tmp/xdg-test"), s("/home/u")).expect("xdg present resolves");
    assert_eq!(resolved, "/tmp/xdg-test/luminos/config.toml");
}

#[test]
fn config_path_home_fallback() {
    let resolved = resolve_config_path(None, s("/home/u")).expect("home present resolves");
    assert_eq!(resolved, "/home/u/.config/luminos/config.toml");
}

#[test]
fn config_path_neither_is_no_config_dir() {
    assert!(resolve_config_path(None, None).is_none());
}

#[test]
fn config_path_ignores_relative_xdg() {
    let resolved = resolve_config_path(s("relative/dir"), s("/home/u"))
        .expect("relative xdg falls back to home");
    assert_eq!(resolved, "/home/u/.config/luminos/config.toml");
}

#[test]
fn config_path_prefers_platform_project_dir() {
    assert_eq!(
        choose_config_path(s("/home/u/.config/luminos"), s("/x"), s("/home/u")),
        s("/home/u/.config/luminos/config.toml")
    );
    assert_eq!(
        choose_config_path(None, None, s("/home/u/")),
        s("/home/u/.config/luminos/config.toml")
    );
    assert_eq!(choose_config_path(None, s("rel"), None), None);
}

#[test]
fn config_join_follows_unix_rules() {
    assert_eq!(join_path("/a", "b"), "/a/b");
    assert_eq!(join_path("/a/", "b"), "/a/b");
    assert_eq!(join_path("", "b"), "b");
    assert_eq!(join_path("/a", "/b"), "/b");
}

#[test]
fn config_file_default_schema_version_is_current() {
    assert_eq!(default_schema_version(), CURRENT_SCHEMA_VERSION);
}

#[test]
fn config_backup_names() {
    assert_eq!(backup_file_name(0), "config.toml.bak");
    assert_eq!(backup_file_name(1), "config.toml.bak.1");
    assert_eq!(backup_file_name(1000), "config.toml.bak.1000");
}

#[test]
fn config_backup_probe_picks_first_free() {
    let taken = [true, true, false, true];
    let mut slot = 0;
    let chosen = loop {
        match next_backup_probe(slot, taken[slot as usize]) {
            BackupProbe::Use(s) => break s,
            BackupProbe::Next(s) => slot = s,
        }
    };
    assert_eq!(chosen, 2);
    assert_eq!(
        next_backup_probe(MAX_NUMBERED_BACKUPS, true),
        BackupProbe::Use(MAX_NUMBERED_BACKUPS)
    );
}

#[test]
fn config_temp_file_names() {
    assert_eq!(
        temp_file_name(s("config.toml"), 4242, 7),
        ".config.toml.4242.7.tmp"
    );
    assert_eq!(temp_file_name(None, 1, 0), ".config.toml.1.0.tmp");
    assert_ne!(
        temp_file_name(None, 1, 0),
        temp_file_name(None, 1, 1)
    );
}

#[test]
fn config_load_outcomes() {
    assert_eq!(load_outcome(ReadResult::Missing), LoadOutcome::Defaults);
    assert_eq!(load_outcome(ReadResult::Unreadable), LoadOutcome::ReadError);
    assert_eq!(load_outcome(ReadResult::Read(true)), LoadOutcome::Parsed);
    assert_eq!(
        load_outcome(ReadResult::Read(false)),
        LoadOutcome::RecoverToDefaults
    );
}
