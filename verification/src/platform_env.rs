//! Forcing the X11/XWayland GTK + WebKit backend on Linux.
//!
//! Computes, from a snapshot of the process environment, the adjustments
//! that pin `GDK_BACKEND=x11` and disable WebKit's compositing/DMABUF
//! renderer. Each backend variable is set only when it is currently unset,
//! so a user override, a test harness or a real X11 session always wins. On
//! a native Wayland session the Wayland capture hints are scrubbed so screen
//! capture picks its X11 backend against XWayland, unless the user opted into
//! the Wayland GDK backend. Applying the plan to the live environment is left
//! to the caller.
use vstd::prelude::*;
use crate::text::text_eq;

verus! {

/// GTK backend selector.
pub const GDK_BACKEND: &'static str = "GDK_BACKEND";
/// WebKit compositing switch.
pub const WEBKIT_DISABLE_COMPOSITING_MODE: &'static str = "WEBKIT_DISABLE_COMPOSITING_MODE";
/// WebKit DMABUF renderer switch.
pub const WEBKIT_DISABLE_DMABUF_RENDERER: &'static str = "WEBKIT_DISABLE_DMABUF_RENDERER";
/// Wayland display socket name.
pub const WAYLAND_DISPLAY: &'static str = "WAYLAND_DISPLAY";
/// Desktop session type.
pub const XDG_SESSION_TYPE: &'static str = "XDG_SESSION_TYPE";

/// A snapshot of environment variables as `(name, value)` pairs; a lookup
/// finds the first pair with the requested name.
#[derive(Debug, Clone)]
pub struct EnvVars {
    vars: Vec<(String, String)>,
}

/// The value of the first pair named `key`, if any.
pub open spec fn env_lookup(vars: Seq<(Seq<char>, Seq<char>)>, key: Seq<char>) -> Option<Seq<char>>
    decreases vars.len(),
{
    if vars.len() == 0 {
        None
    } else if vars[0].0 == key {
        Some(vars[0].1)
    } else {
        env_lookup(vars.drop_first(), key)
    }
}

impl View for EnvVars {
    type V = Seq<(Seq<char>, Seq<char>)>;

    closed spec fn view(&self) -> Seq<(Seq<char>, Seq<char>)> {
        self.vars@.map_values(|p: (String, String)| (p.0@, p.1@))
    }
}

proof fn lemma_lookup_prefix(vars: Seq<(Seq<char>, Seq<char>)>, key: Seq<char>, i: int)
    requires
        0 <= i <= vars.len(),
        forall|j: int| 0 <= j < i ==> #[trigger] vars[j].0 != key,
    ensures
        env_lookup(vars, key) == env_lookup(vars.subrange(i, vars.len() as int), key),
    decreases i,
{
    if i > 0 {
        assert(vars[0].0 != key);
        assert forall|j: int| 0 <= j < i - 1 implies #[trigger] vars.drop_first()[j].0 != key by {
            assert(vars.drop_first()[j] == vars[j + 1]);
        }
        lemma_lookup_prefix(vars.drop_first(), key, i - 1);
        assert(vars.drop_first().subrange(i - 1, vars.drop_first().len() as int) =~= vars.subrange(i, vars.len() as int));
    } else {
        assert(vars.subrange(0, vars.len() as int) =~= vars);
    }
}

impl EnvVars {
    /// An empty environment.
    pub fn new() -> (r: EnvVars)
        ensures
            r@ == Seq::<(Seq<char>, Seq<char>)>::empty(),
    {
        let r = EnvVars { vars: Vec::new() };
        assert(r@ =~= Seq::<(Seq<char>, Seq<char>)>::empty());
        r
    }

    /// Appends a variable; an earlier pair with the same name still wins.
    pub fn push(&mut self, key: String, value: String)
        ensures
            final(self)@ == old(self)@.push((key@, value@)),
    {
        self.vars.push((key, value));
        assert(self@ =~= old(self)@.push((key@, value@)));
    }

    /// The environment made of `pairs`, in order.
    pub fn from_pairs(pairs: &[(&str, &str)]) -> (r: EnvVars)
        ensures
            r@.len() == pairs@.len(),
            forall|i: int| 0 <= i < pairs@.len() ==> #[trigger] r@[i] == (pairs@[i].0@, pairs@[i].1@),
    {
        let mut r = EnvVars::new();
        let mut i: usize = 0;
        while i < pairs.len()
            invariant
                i <= pairs@.len(),
                r@.len() == i,
                forall|j: int| 0 <= j < i ==> #[trigger] r@[j] == (pairs@[j].0@, pairs@[j].1@),
            decreases pairs@.len() - i,
        {
            let (k, v) = pairs[i];
            r.push(k.to_owned(), v.to_owned());
            i = i + 1;
        }
        r
    }

    /// The value of `key`, if set.
    pub fn get(&self, key: &str) -> (r: Option<String>)
        ensures
            match r {
                Some(v) => env_lookup(self@, key@) == Some(v@),
                None => env_lookup(self@, key@) is None,
            },
    {
        let mut i: usize = 0;
        while i < self.vars.len()
            invariant
                i <= self.vars@.len(),
                self@.len() == self.vars@.len(),
                forall|j: int| 0 <= j < i ==> #[trigger] self@[j].0 != key@,
            decreases self.vars@.len() - i,
        {
            if text_eq(self.vars[i].0.as_str(), key) {
                proof {
                    lemma_lookup_prefix(self@, key@, i as int);
                    assert(self@.subrange(i as int, self@.len() as int)[0] == self@[i as int]);
                }
                return Some(self.vars[i].1.clone());
            }
            i = i + 1;
        }
        proof {
            lemma_lookup_prefix(self@, key@, i as int);
        }
        None
    }
}

/// A single environment adjustment to perform before GTK init.
#[derive(Debug, Clone, Copy, PartialEq, Eq)]
pub enum EnvAction {
    /// Set the variable to the value (only planned when it was unset).
    SetVar(&'static str, &'static str),
    /// Remove the variable from the environment.
    Remove(&'static str),
}

/// The environment indicates a native Wayland session: a non-empty
/// `WAYLAND_DISPLAY`, or `XDG_SESSION_TYPE=wayland`.
pub open spec fn wayland_session(vars: Seq<(Seq<char>, Seq<char>)>) -> bool {
    ||| (env_lookup(vars, WAYLAND_DISPLAY@) matches Some(v) && v.len() > 0)
    ||| env_lookup(vars, XDG_SESSION_TYPE@) == Some("wayland"@)
}

/// `SetVar(key, value)` when `key` is unset in `vars`, nothing otherwise.
pub open spec fn set_if_unset(vars: Seq<(Seq<char>, Seq<char>)>, key: &'static str, value: &'static str) -> Seq<EnvAction> {
    if env_lookup(vars, key@) is None {
        seq![EnvAction::SetVar(key, value)]
    } else {
        Seq::empty()
    }
}

/// On a Wayland session where the user did not ask for the Wayland GDK
/// backend: remove `WAYLAND_DISPLAY` and, unless it already is `x11`, set
/// `XDG_SESSION_TYPE=x11`. Nothing otherwise.
pub open spec fn wayland_scrub(vars: Seq<(Seq<char>, Seq<char>)>) -> Seq<EnvAction> {
    if wayland_session(vars) && env_lookup(vars, GDK_BACKEND@) != Some("wayland"@) {
        seq![EnvAction::Remove(WAYLAND_DISPLAY)] + if env_lookup(vars, XDG_SESSION_TYPE@) != Some("x11"@) {
            seq![EnvAction::SetVar(XDG_SESSION_TYPE, "x11")]
        } else {
            Seq::empty()
        }
    } else {
        Seq::empty()
    }
}

/// The adjustments that force the X11 backend in the environment `vars`.
pub open spec fn backend_env_plan(vars: Seq<(Seq<char>, Seq<char>)>) -> Seq<EnvAction> {
    set_if_unset(vars, GDK_BACKEND, "x11") + set_if_unset(vars, WEBKIT_DISABLE_COMPOSITING_MODE, "1")
        + set_if_unset(vars, WEBKIT_DISABLE_DMABUF_RENDERER, "1") + wayland_scrub(vars)
}

/// Whether `value` is present and equal to `expected`.
fn value_is(value: &Option<String>, expected: &str) -> (r: bool)
    ensures
        r == (match *value {
            Some(v) => v@ == expected@,
            None => false,
        }),
{
    match value {
        Some(v) => text_eq(v.as_str(), expected),
        None => false,
    }
}

/// Returns `true` when the environment indicates a native Wayland session.
pub fn is_wayland_session(env: &EnvVars) -> (r: bool)
    ensures
        r == wayland_session(env@),
{
    let display = env.get(WAYLAND_DISPLAY);
    let nonempty_display = match &display {
        Some(v) => v.as_str().unicode_len() > 0,
        None => false,
    };
    if nonempty_display {
        return true;
    }
    let session = env.get(XDG_SESSION_TYPE);
    proof {
        reveal_strlit("wayland");
    }
    value_is(&session, "wayland")
}

/// Appends `SetVar(key, value)` when `key` is unset.
fn set_if_absent(env: &EnvVars, plan: &mut Vec<EnvAction>, key: &'static str, value: &'static str)
    ensures
        final(plan)@ == old(plan)@ + set_if_unset(env@, key, value),
{
    if env.get(key).is_none() {
        plan.push(EnvAction::SetVar(key, value));
        assert(plan@ =~= old(plan)@ + seq![EnvAction::SetVar(key, value)]);
    } else {
        assert(plan@ =~= old(plan)@ + Seq::<EnvAction>::empty());
    }
}

/// Computes the environment adjustments needed to force the X11/XWayland
/// backend. Pure: the caller applies the returned plan.
pub fn x11_backend_env_plan(env: EnvVars) -> (plan: Vec<EnvAction>)
    ensures
        plan@ == backend_env_plan(env@),
{
    let mut plan: Vec<EnvAction> = Vec::new();
    set_if_absent(&env, &mut plan, GDK_BACKEND, "x11");
    set_if_absent(&env, &mut plan, WEBKIT_DISABLE_COMPOSITING_MODE, "1");
    set_if_absent(&env, &mut plan, WEBKIT_DISABLE_DMABUF_RENDERER, "1");
    let ghost base = plan@;
    let opted_into_wayland = value_is(&env.get(GDK_BACKEND), "wayland");
    if is_wayland_session(&env) && !opted_into_wayland {
        plan.push(EnvAction::Remove(WAYLAND_DISPLAY));
        if !value_is(&env.get(XDG_SESSION_TYPE), "x11") {
            plan.push(EnvAction::SetVar(XDG_SESSION_TYPE, "x11"));
        }
    }
    assert(plan@ =~= backend_env_plan(env@));
    plan
}

/// `vars` without any pair named `key`.
pub open spec fn remove_var(vars: Seq<(Seq<char>, Seq<char>)>, key: Seq<char>) -> Seq<(Seq<char>, Seq<char>)>
    decreases vars.len(),
{
    if vars.len() == 0 {
        vars
    } else if vars[0].0 == key {
        remove_var(vars.drop_first(), key)
    } else {
        seq![vars[0]] + remove_var(vars.drop_first(), key)
    }
}

/// The environment after performing `action`: a set variable takes the new
/// value, a removed one is unset.
pub open spec fn apply_action(vars: Seq<(Seq<char>, Seq<char>)>, action: EnvAction) -> Seq<(Seq<char>, Seq<char>)> {
    match action {
        EnvAction::SetVar(key, value) => seq![(key@, value@)] + vars,
        EnvAction::Remove(key) => remove_var(vars, key@),
    }
}

/// The environment after performing `plan` in order.
pub open spec fn apply_plan(vars: Seq<(Seq<char>, Seq<char>)>, plan: Seq<EnvAction>) -> Seq<(Seq<char>, Seq<char>)>
    decreases plan.len(),
{
    if plan.len() == 0 {
        vars
    } else {
        apply_plan(apply_action(vars, plan[0]), plan.drop_first())
    }
}

/// The variable an action changes.
pub open spec fn action_key(action: EnvAction) -> Seq<char> {
    match action {
        EnvAction::SetVar(key, _) => key@,
        EnvAction::Remove(key) => key@,
    }
}

proof fn lemma_lookup_remove(vars: Seq<(Seq<char>, Seq<char>)>, removed: Seq<char>, key: Seq<char>)
    ensures
        env_lookup(remove_var(vars, removed), key) == if key == removed {
            None
        } else {
            env_lookup(vars, key)
        },
    decreases vars.len(),
{
    if vars.len() > 0 {
        lemma_lookup_remove(vars.drop_first(), removed, key);
        if vars[0].0 != removed {
            let r = seq![vars[0]] + remove_var(vars.drop_first(), removed);
            assert(r.drop_first() =~= remove_var(vars.drop_first(), removed));
        }
    }
}

proof fn lemma_lookup_action(vars: Seq<(Seq<char>, Seq<char>)>, action: EnvAction, key: Seq<char>)
    ensures
        env_lookup(apply_action(vars, action), key) == if action_key(action) == key {
            match action {
                EnvAction::SetVar(_, value) => Some(value@),
                EnvAction::Remove(_) => None,
            }
        } else {
            env_lookup(vars, key)
        },
{
    match action {
        EnvAction::SetVar(k, v) => {
            let r = seq![(k@, v@)] + vars;
            assert(r.drop_first() =~= vars);
        },
        EnvAction::Remove(k) => {
            lemma_lookup_remove(vars, k@, key);
        },
    }
}

proof fn lemma_apply_plan_concat(vars: Seq<(Seq<char>, Seq<char>)>, a: Seq<EnvAction>, b: Seq<EnvAction>)
    ensures
        apply_plan(vars, a + b) == apply_plan(apply_plan(vars, a), b),
    decreases a.len(),
{
    if a.len() == 0 {
        assert(a + b =~= b);
    } else {
        assert((a + b).drop_first() =~= a.drop_first() + b);
        assert((a + b)[0] == a[0]);
        lemma_apply_plan_concat(apply_action(vars, a[0]), a.drop_first(), b);
    }
}

proof fn lemma_lookup_untouched(vars: Seq<(Seq<char>, Seq<char>)>, plan: Seq<EnvAction>, key: Seq<char>)
    requires
        forall|i: int| 0 <= i < plan.len() ==> action_key(#[trigger] plan[i]) != key,
    ensures
        env_lookup(apply_plan(vars, plan), key) == env_lookup(vars, key),
    decreases plan.len(),
{
    if plan.len() > 0 {
        lemma_lookup_action(vars, plan[0], key);
        assert forall|i: int| 0 <= i < plan.drop_first().len() implies action_key(
            #[trigger] plan.drop_first()[i],
        ) != key by {
            assert(plan.drop_first()[i] == plan[i + 1]);
        }
        lemma_lookup_untouched(apply_action(vars, plan[0]), plan.drop_first(), key);
    }
}

/// The lookup of `key` after one action `a` followed by actions that do
/// not touch `key`.
proof fn lemma_lookup_single_then_untouched(
    vars: Seq<(Seq<char>, Seq<char>)>,
    a: Seq<EnvAction>,
    rest: Seq<EnvAction>,
    key: Seq<char>,
)
    requires
        a.len() <= 1,
        forall|i: int| 0 <= i < rest.len() ==> action_key(#[trigger] rest[i]) != key,
    ensures
        env_lookup(apply_plan(vars, a + rest), key) == env_lookup(apply_plan(vars, a), key),
{
    lemma_apply_plan_concat(vars, a, rest);
    lemma_lookup_untouched(apply_plan(vars, a), rest, key);
}

/// The five variable names are distinct.
proof fn lemma_names_distinct()
    ensures
        GDK_BACKEND@ != WEBKIT_DISABLE_COMPOSITING_MODE@,
        GDK_BACKEND@ != WEBKIT_DISABLE_DMABUF_RENDERER@,
        GDK_BACKEND@ != WAYLAND_DISPLAY@,
        GDK_BACKEND@ != XDG_SESSION_TYPE@,
        WEBKIT_DISABLE_COMPOSITING_MODE@ != WEBKIT_DISABLE_DMABUF_RENDERER@,
        WEBKIT_DISABLE_COMPOSITING_MODE@ != WAYLAND_DISPLAY@,
        WEBKIT_DISABLE_COMPOSITING_MODE@ != XDG_SESSION_TYPE@,
        WEBKIT_DISABLE_DMABUF_RENDERER@ != WAYLAND_DISPLAY@,
        WEBKIT_DISABLE_DMABUF_RENDERER@ != XDG_SESSION_TYPE@,
        WAYLAND_DISPLAY@ != XDG_SESSION_TYPE@,
        "x11"@ != "wayland"@,
        "x11"@.len() > 0,
{
    reveal_strlit("GDK_BACKEND");
    reveal_strlit("WEBKIT_DISABLE_COMPOSITING_MODE");
    reveal_strlit("WEBKIT_DISABLE_DMABUF_RENDERER");
    reveal_strlit("WAYLAND_DISPLAY");
    reveal_strlit("XDG_SESSION_TYPE");
    reveal_strlit("x11");
    reveal_strlit("wayland");
    assert(GDK_BACKEND@.len() == 11);
    assert(WEBKIT_DISABLE_COMPOSITING_MODE@.len() == 31);
    assert(WEBKIT_DISABLE_DMABUF_RENDERER@.len() == 30);
    assert(WAYLAND_DISPLAY@.len() == 15);
    assert(XDG_SESSION_TYPE@.len() == 16);
    assert("x11"@.len() == 3);
    assert("wayland"@.len() == 7);
}

/// Forcing the backend is idempotent: once the plan has been applied to the
/// environment, planning again on the result asks for nothing more.
pub proof fn lemma_plan_idempotent(vars: Seq<(Seq<char>, Seq<char>)>)
    ensures
        backend_env_plan(apply_plan(vars, backend_env_plan(vars))) == Seq::<EnvAction>::empty(),
{
    lemma_names_distinct();
    let a = set_if_unset(vars, GDK_BACKEND, "x11");
    let b = set_if_unset(vars, WEBKIT_DISABLE_COMPOSITING_MODE, "1");
    let c = set_if_unset(vars, WEBKIT_DISABLE_DMABUF_RENDERER, "1");
    let d = wayland_scrub(vars);
    let plan = backend_env_plan(vars);
    let after = apply_plan(vars, plan);
    assert(plan =~= a + (b + (c + d)));
    lemma_apply_plan_concat(vars, a, b + (c + d));
    lemma_apply_plan_concat(apply_plan(vars, a), b, c + d);
    lemma_apply_plan_concat(apply_plan(apply_plan(vars, a), b), c, d);
    let va = apply_plan(vars, a);
    let vb = apply_plan(va, b);
    let vc = apply_plan(vb, c);
    assert(after == apply_plan(vc, d));
    // Which names each piece touches.
    assert forall|i: int| 0 <= i < a.len() implies action_key(#[trigger] a[i]) == GDK_BACKEND@ by {}
    assert forall|i: int| 0 <= i < b.len() implies action_key(#[trigger] b[i]) == WEBKIT_DISABLE_COMPOSITING_MODE@ by {}
    assert forall|i: int| 0 <= i < c.len() implies action_key(#[trigger] c[i]) == WEBKIT_DISABLE_DMABUF_RENDERER@ by {}
    assert forall|i: int| 0 <= i < d.len() implies action_key(#[trigger] d[i]) == WAYLAND_DISPLAY@ || action_key(d[i])
        == XDG_SESSION_TYPE@ by {}
    // Each piece holds at most one action.
    assert(a.len() == 0 ==> va == vars);
    assert(a.len() == 1 ==> va == apply_action(vars, a[0])) by {
        if a.len() == 1 {
            assert(a.drop_first().len() == 0);
            assert(apply_plan(apply_action(vars, a[0]), a.drop_first()) == apply_action(vars, a[0]));
        }
    }
    assert(b.len() == 0 ==> vb == va);
    assert(b.len() == 1 ==> vb == apply_action(va, b[0])) by {
        if b.len() == 1 {
            assert(b.drop_first().len() == 0);
            assert(apply_plan(apply_action(va, b[0]), b.drop_first()) == apply_action(va, b[0]));
        }
    }
    assert(c.len() == 0 ==> vc == vb);
    assert(c.len() == 1 ==> vc == apply_action(vb, c[0])) by {
        if c.len() == 1 {
            assert(c.drop_first().len() == 0);
            assert(apply_plan(apply_action(vb, c[0]), c.drop_first()) == apply_action(vb, c[0]));
        }
    }
    // Lookups through the pieces.
    if a.len() == 1 {
        lemma_lookup_action(vars, a[0], GDK_BACKEND@);
        lemma_lookup_action(vars, a[0], WAYLAND_DISPLAY@);
        lemma_lookup_action(vars, a[0], XDG_SESSION_TYPE@);
        lemma_lookup_action(vars, a[0], WEBKIT_DISABLE_COMPOSITING_MODE@);
        lemma_lookup_action(vars, a[0], WEBKIT_DISABLE_DMABUF_RENDERER@);
    }
    if b.len() == 1 {
        lemma_lookup_action(va, b[0], GDK_BACKEND@);
        lemma_lookup_action(va, b[0], WAYLAND_DISPLAY@);
        lemma_lookup_action(va, b[0], XDG_SESSION_TYPE@);
        lemma_lookup_action(va, b[0], WEBKIT_DISABLE_COMPOSITING_MODE@);
        lemma_lookup_action(va, b[0], WEBKIT_DISABLE_DMABUF_RENDERER@);
    }
    if c.len() == 1 {
        lemma_lookup_action(vb, c[0], GDK_BACKEND@);
        lemma_lookup_action(vb, c[0], WAYLAND_DISPLAY@);
        lemma_lookup_action(vb, c[0], XDG_SESSION_TYPE@);
        lemma_lookup_action(vb, c[0], WEBKIT_DISABLE_COMPOSITING_MODE@);
        lemma_lookup_action(vb, c[0], WEBKIT_DISABLE_DMABUF_RENDERER@);
    }
    // The scrub touches neither the GDK nor the WebKit names.
    lemma_lookup_untouched(vc, d, GDK_BACKEND@);
    lemma_lookup_untouched(vc, d, WEBKIT_DISABLE_COMPOSITING_MODE@);
    lemma_lookup_untouched(vc, d, WEBKIT_DISABLE_DMABUF_RENDERER@);
    if d.len() > 0 {
        let first = d.subrange(0, 1);
        let rest = d.subrange(1, d.len() as int);
        assert(d =~= first + rest);
        assert(first[0] == EnvAction::Remove(WAYLAND_DISPLAY));
        assert forall|i: int| 0 <= i < rest.len() implies action_key(#[trigger] rest[i]) != WAYLAND_DISPLAY@ by {
            assert(rest[i] == d[i + 1]);
        }
        lemma_lookup_single_then_untouched(vc, first, rest, WAYLAND_DISPLAY@);
        assert(apply_plan(vc, first) == apply_action(vc, first[0])) by {
            assert(first.drop_first().len() == 0);
            assert(apply_plan(apply_action(vc, first[0]), first.drop_first()) == apply_action(vc, first[0]));
        }
        lemma_lookup_action(vc, first[0], WAYLAND_DISPLAY@);
        lemma_apply_plan_concat(vc, first, rest);
        let v1 = apply_plan(vc, first);
        lemma_lookup_action(vc, first[0], XDG_SESSION_TYPE@);
        if rest.len() == 1 {
            assert(rest[0] == EnvAction::SetVar(XDG_SESSION_TYPE, "x11"));
            assert(apply_plan(v1, rest) == apply_action(v1, rest[0])) by {
                assert(rest.drop_first().len() == 0);
                assert(apply_plan(apply_action(v1, rest[0]), rest.drop_first()) == apply_action(v1, rest[0]));
            }
            lemma_lookup_action(v1, rest[0], XDG_SESSION_TYPE@);
        } else {
            assert(rest.len() == 0);
        }
    } else {
        assert(after == vc);
    }
    assert(env_lookup(after, GDK_BACKEND@) is Some);
    assert(env_lookup(after, WEBKIT_DISABLE_COMPOSITING_MODE@) is Some);
    assert(env_lookup(after, WEBKIT_DISABLE_DMABUF_RENDERER@) is Some);
    assert(!(wayland_session(after) && env_lookup(after, GDK_BACKEND@) != Some("wayland"@)));
    assert(backend_env_plan(after) =~= Seq::<EnvAction>::empty());
}

/// The plan respects values already set: it sets a variable other than the
/// session type only when that variable is unset, and it leaves the Wayland
/// hints alone when the user asked for the Wayland GDK backend.
pub proof fn lemma_plan_respects_existing(vars: Seq<(Seq<char>, Seq<char>)>, key: &'static str, value: &'static str)
    ensures
        backend_env_plan(vars).contains(EnvAction::SetVar(key, value)) && key@ != XDG_SESSION_TYPE@
            ==> env_lookup(vars, key@) is None,
        env_lookup(vars, GDK_BACKEND@) == Some("wayland"@) ==> !backend_env_plan(vars).contains(
            EnvAction::Remove(WAYLAND_DISPLAY),
        ),
{
    let a = set_if_unset(vars, GDK_BACKEND, "x11");
    let b = set_if_unset(vars, WEBKIT_DISABLE_COMPOSITING_MODE, "1");
    let c = set_if_unset(vars, WEBKIT_DISABLE_DMABUF_RENDERER, "1");
    let d = wayland_scrub(vars);
    let plan = backend_env_plan(vars);
    if plan.contains(EnvAction::SetVar(key, value)) && key@ != XDG_SESSION_TYPE@ {
        let i = choose|i: int| 0 <= i < plan.len() && plan[i] == EnvAction::SetVar(key, value);
        if i < a.len() {
            assert(plan[i] == a[i]);
        } else if i < a.len() + b.len() {
            assert(plan[i] == b[i - a.len()]);
        } else if i < a.len() + b.len() + c.len() {
            assert(plan[i] == c[i - a.len() - b.len()]);
        } else {
            assert(plan[i] == d[i - a.len() - b.len() - c.len()]);
        }
    }
    if env_lookup(vars, GDK_BACKEND@) == Some("wayland"@) && plan.contains(EnvAction::Remove(WAYLAND_DISPLAY)) {
        let i = choose|i: int| 0 <= i < plan.len() && plan[i] == EnvAction::Remove(WAYLAND_DISPLAY);
        assert(d.len() == 0);
        if i < a.len() {
            assert(plan[i] == a[i]);
        } else if i < a.len() + b.len() {
            assert(plan[i] == b[i - a.len()]);
        } else {
            assert(plan[i] == c[i - a.len() - b.len()]);
        }
    }
}

/// On a Wayland session (a non-empty `WAYLAND_DISPLAY`, or
/// `XDG_SESSION_TYPE=wayland`) where the user did not ask for the Wayland
/// GDK backend, the plan removes `WAYLAND_DISPLAY` and sets
/// `XDG_SESSION_TYPE=x11` exactly when the session type is not already
/// `x11` (unset, `wayland`, `tty`, anything else).
pub proof fn lemma_wayland_scrub_pins_session(vars: Seq<(Seq<char>, Seq<char>)>)
    requires
        (env_lookup(vars, WAYLAND_DISPLAY@) matches Some(v) && v.len() > 0) || env_lookup(vars, XDG_SESSION_TYPE@)
            == Some("wayland"@),
        env_lookup(vars, GDK_BACKEND@) != Some("wayland"@),
    ensures
        backend_env_plan(vars).contains(EnvAction::Remove(WAYLAND_DISPLAY)),
        backend_env_plan(vars).contains(EnvAction::SetVar(XDG_SESSION_TYPE, "x11")) == (env_lookup(
            vars,
            XDG_SESSION_TYPE@,
        ) != Some("x11"@)),
{
    lemma_names_distinct();
    let a = set_if_unset(vars, GDK_BACKEND, "x11");
    let b = set_if_unset(vars, WEBKIT_DISABLE_COMPOSITING_MODE, "1");
    let c = set_if_unset(vars, WEBKIT_DISABLE_DMABUF_RENDERER, "1");
    let d = wayland_scrub(vars);
    let plan = backend_env_plan(vars);
    let n: int = (a.len() + b.len() + c.len()) as int;
    assert(d[0] == EnvAction::Remove(WAYLAND_DISPLAY));
    assert(plan[n] == d[0]);
    let wanted = EnvAction::SetVar(XDG_SESSION_TYPE, "x11");
    if env_lookup(vars, XDG_SESSION_TYPE@) != Some("x11"@) {
        assert(d[1] == wanted);
        assert(plan[n + 1] == d[1]);
    } else {
        assert(d.len() == 1);
        if plan.contains(wanted) {
            let i = choose|i: int| 0 <= i < plan.len() && plan[i] == wanted;
            if i < a.len() {
                assert(plan[i] == a[i]);
            } else if i < a.len() + b.len() {
                assert(plan[i] == b[i - a.len()]);
            } else if i < n {
                assert(plan[i] == c[i - a.len() - b.len()]);
            } else {
                assert(plan[i] == d[i - n]);
            }
        }
    }
}

} // verus!
