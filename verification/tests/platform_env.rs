use luminos::platform_env::{is_wayland_session, x11_backend_env_plan, EnvAction, EnvVars};

fn env_of(pairs: &[(&str, &str)]) -> EnvVars {
    EnvVars::from_pairs(pairs)
}

#[test]
fn env_plan_sets_all_backend_vars_when_absent_on_x11() {
    let plan = x11_backend_env_plan(env_of(&[("XDG_SESSION_TYPE", "x11")]));
    assert!(plan.contains(&EnvAction::SetVar("GDK_BACKEND", "x11")));
    assert!(plan.contains(&EnvAction::SetVar("WEBKIT_DISABLE_COMPOSITING_MODE", "1")));
    assert!(plan.contains(&EnvAction::SetVar("WEBKIT_DISABLE_DMABUF_RENDERER", "1")));
    assert!(!plan.contains(&EnvAction::Remove("WAYLAND_DISPLAY")));
}

#[test]
fn env_plan_respects_existing_gdk_backend() {
    let plan = x11_backend_env_plan(env_of(&[("GDK_BACKEND", "x11")]));
    assert!(
        !plan
            .iter()
            .any(|a| matches!(a, EnvAction::SetVar("GDK_BACKEND", _))),
        "must not re-set an already-set GDK_BACKEND: {plan:?}"
    );
}

#[test]
fn env_plan_respects_existing_webkit_vars() {
    let plan = x11_backend_env_plan(env_of(&[
        ("WEBKIT_DISABLE_COMPOSITING_MODE", "0"),
        ("WEBKIT_DISABLE_DMABUF_RENDERER", "0"),
    ]));
    assert!(!plan.iter().any(|a| matches!(
        a,
        EnvAction::SetVar(
            "WEBKIT_DISABLE_COMPOSITING_MODE" | "WEBKIT_DISABLE_DMABUF_RENDERER",
            _
        )
    )));
}

#[test]
fn env_plan_scrubs_wayland_hints_on_wayland_session() {
    let plan = x11_backend_env_plan(env_of(&[
        ("WAYLAND_DISPLAY", "wayland-0"),
        ("XDG_SESSION_TYPE", "wayland"),
    ]));
    assert!(plan.contains(&EnvAction::SetVar("GDK_BACKEND", "x11")));
    assert!(plan.contains(&EnvAction::Remove("WAYLAND_DISPLAY")));
    assert!(plan.contains(&EnvAction::SetVar("XDG_SESSION_TYPE", "x11")));
}

#[test]
fn env_plan_no_wayland_scrub_when_user_opts_into_wayland_backend() {
    let plan = x11_backend_env_plan(env_of(&[
        ("GDK_BACKEND", "wayland"),
        ("WAYLAND_DISPLAY", "wayland-0"),
        ("XDG_SESSION_TYPE", "wayland"),
    ]));
    assert!(!plan.contains(&EnvAction::SetVar("GDK_BACKEND", "x11")));
    assert!(
        !plan.contains(&EnvAction::Remove("WAYLAND_DISPLAY")),
        "must not scrub Wayland hints when the user opted into the Wayland backend: {plan:?}"
    );
}

#[test]
fn is_wayland_session_detects_wayland_display() {
    assert!(is_wayland_session(&env_of(&[("WAYLAND_DISPLAY", "wayland-0")])));
    assert!(is_wayland_session(&env_of(&[("XDG_SESSION_TYPE", "wayland")])));
}

#[test]
fn is_wayland_session_false_on_x11_and_empty_display() {
    assert!(!is_wayland_session(&env_of(&[("XDG_SESSION_TYPE", "x11")])));
    assert!(!is_wayland_session(&env_of(&[("WAYLAND_DISPLAY", "")])));
    assert!(!is_wayland_session(&env_of(&[])));
}

#[test]
fn env_plan_exact_on_empty_environment() {
    let plan = x11_backend_env_plan(env_of(&[]));
    assert_eq!(
        plan,
        vec![
            EnvAction::SetVar("GDK_BACKEND", "x11"),
            EnvAction::SetVar("WEBKIT_DISABLE_COMPOSITING_MODE", "1"),
            EnvAction::SetVar("WEBKIT_DISABLE_DMABUF_RENDERER", "1"),
        ]
    );
}

#[test]
fn env_plan_keeps_existing_x11_session_type_on_wayland_display() {
    let plan = x11_backend_env_plan(env_of(&[
        ("WAYLAND_DISPLAY", "wayland-1"),
        ("XDG_SESSION_TYPE", "x11"),
    ]));
    assert!(plan.contains(&EnvAction::Remove("WAYLAND_DISPLAY")));
    assert!(!plan.contains(&EnvAction::SetVar("XDG_SESSION_TYPE", "x11")));
}

#[test]
fn env_lookup_takes_first_value() {
    let mut env = EnvVars::new();
    env.push("A".to_string(), "1".to_string());
    env.push("A".to_string(), "2".to_string());
    assert_eq!(env.get("A"), Some("1".to_string()));
    assert_eq!(env.get("B"), None);
}

fn apply(env: &mut Vec<(String, String)>, plan: &[EnvAction]) {
    for action in plan {
        match action {
            EnvAction::SetVar(k, v) => env.insert(0, (k.to_string(), v.to_string())),
            EnvAction::Remove(k) => env.retain(|(name, _)| name != k),
        }
    }
}

fn env_from(pairs: &[(String, String)]) -> EnvVars {
    let borrowed: Vec<(&str, &str)> = pairs.iter().map(|(k, v)| (k.as_str(), v.as_str())).collect();
    EnvVars::from_pairs(&borrowed)
}

#[test]
fn env_plan_is_idempotent_once_applied() {
    let starts: Vec<Vec<(&str, &str)>> = vec![
        vec![],
        vec![("XDG_SESSION_TYPE", "x11")],
        vec![("WAYLAND_DISPLAY", "wayland-0"), ("XDG_SESSION_TYPE", "wayland")],
        vec![("GDK_BACKEND", "wayland"), ("WAYLAND_DISPLAY", "wayland-0")],
        vec![("WAYLAND_DISPLAY", "wayland-1"), ("XDG_SESSION_TYPE", "x11")],
    ];
    for start in starts {
        let mut env: Vec<(String, String)> =
            start.iter().map(|(k, v)| (k.to_string(), v.to_string())).collect();
        let plan = x11_backend_env_plan(env_from(&env));
        apply(&mut env, &plan);
        assert!(
            x11_backend_env_plan(env_from(&env)).is_empty(),
            "second plan not empty for {start:?}"
        );
    }
}
