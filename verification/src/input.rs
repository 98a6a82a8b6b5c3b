//! Keyboard and mouse input as seen by the engine, and global hotkey
//! matching.
//!
//! [`HotkeyMatcher`] maps `(key, modifiers)` pairs to [`HotkeyAction`]s and
//! matches only key presses with exactly the registered modifiers. The
//! default matcher registers the four ZoomText-convention shortcuts:
//!
//! | Shortcut | Action |
//! |----------|--------|
//! | Ctrl+Alt+= / Ctrl+Alt+NumpadAdd | Zoom In |
//! | Ctrl+Alt+- / Ctrl+Alt+NumpadSubtract | Zoom Out |
//! | Ctrl+Alt+8 | Toggle Magnification |
//! | Ctrl+Alt+0 / Ctrl+Alt+Numpad0 | Reset Zoom |
use vstd::prelude::*;
use crate::schema::HotkeyAction;
use crate::state::ScreenPoint;

verus! {

/// Physical key identifiers.
#[derive(Debug, Clone, Copy, PartialEq, Eq, Hash, Structural)]
pub enum KeyCode {
    A, B, C, D, E, F, G, H, I, J, K, L, M,
    N, O, P, Q, R, S, T, U, V, W, X, Y, Z,
    Key0, Key1, Key2, Key3, Key4, Key5, Key6, Key7, Key8, Key9,
    Numpad0, Numpad1, Numpad2, Numpad3, Numpad4,
    Numpad5, Numpad6, Numpad7, Numpad8, Numpad9,
    NumpadAdd, NumpadSubtract, NumpadMultiply, NumpadDivide, NumpadEnter, NumpadDecimal,
    F1, F2, F3, F4, F5, F6, F7, F8, F9, F10, F11, F12,
    Equal, Minus, Escape, Enter, Space, Tab, Backspace, Delete,
    Left, Right, Up, Down, Home, End, PageUp, PageDown,
    /// Any other key, by its platform key code.
    Other(u32),
}

/// Modifier keys held during a key event.
#[derive(Debug, Clone, Copy, PartialEq, Eq, Hash, Structural)]
pub struct Modifiers {
    /// Shift is held.
    pub shift: bool,
    /// Control is held.
    pub ctrl: bool,
    /// Alt is held.
    pub alt: bool,
    /// Meta/Super is held.
    pub meta: bool,
}

/// Mouse buttons.
#[derive(Debug, Clone, Copy, PartialEq, Eq, Hash, Structural)]
pub enum MouseButton {
    /// Primary button.
    Left,
    /// Secondary button.
    Right,
    /// Middle button / wheel click.
    Middle,
}

/// An input event from the platform input monitor.
///
/// Scroll events carry only their position: the engine ignores scrolling.
#[derive(Debug, Clone, Copy, PartialEq, Eq, Structural)]
pub enum InputEvent {
    /// A key was pressed or released.
    KeyEvent {
        /// The key.
        code: KeyCode,
        /// `true` on press, `false` on release.
        pressed: bool,
        /// Modifiers held at the time.
        modifiers: Modifiers,
    },
    /// The pointer moved.
    MouseMoved {
        /// New pointer position.
        position: ScreenPoint,
    },
    /// A mouse button was pressed or released.
    MouseButton {
        /// The button.
        button: MouseButton,
        /// `true` on press, `false` on release.
        pressed: bool,
        /// Pointer position at the time.
        position: ScreenPoint,
    },
    /// The wheel or touchpad scrolled.
    Scroll {
        /// Pointer position at the time.
        position: ScreenPoint,
    },
}

/// One registered shortcut.
#[derive(Debug, Clone, Copy, PartialEq, Eq, Structural)]
pub struct HotkeyBinding {
    /// The key.
    pub code: KeyCode,
    /// The exact modifiers required.
    pub modifiers: Modifiers,
    /// The action the shortcut triggers.
    pub action: HotkeyAction,
}

/// The lookup key of a binding.
pub open spec fn binding_key(b: HotkeyBinding) -> (KeyCode, Modifiers) {
    (b.code, b.modifiers)
}

/// No two bindings share a `(key, modifiers)` pair.
pub open spec fn distinct_keys(s: Seq<HotkeyBinding>) -> bool {
    forall|i: int, j: int| 0 <= i < j < s.len() ==> binding_key(#[trigger] s[i]) != binding_key(#[trigger] s[j])
}

/// The shortcut table described by a list of bindings.
pub open spec fn bindings_map(s: Seq<HotkeyBinding>) -> Map<(KeyCode, Modifiers), HotkeyAction>
    decreases s.len(),
{
    if s.len() == 0 {
        Map::empty()
    } else {
        bindings_map(s.drop_last()).insert(binding_key(s.last()), s.last().action)
    }
}

/// Ctrl+Alt with nothing else held.
pub open spec fn ctrl_alt_spec() -> Modifiers {
    Modifiers { shift: false, ctrl: true, alt: true, meta: false }
}

/// The default shortcut table.
pub open spec fn default_hotkeys() -> Map<(KeyCode, Modifiers), HotkeyAction> {
    Map::empty()
        .insert((KeyCode::Equal, ctrl_alt_spec()), HotkeyAction::ZoomIn)
        .insert((KeyCode::NumpadAdd, ctrl_alt_spec()), HotkeyAction::ZoomIn)
        .insert((KeyCode::Minus, ctrl_alt_spec()), HotkeyAction::ZoomOut)
        .insert((KeyCode::NumpadSubtract, ctrl_alt_spec()), HotkeyAction::ZoomOut)
        .insert((KeyCode::Key8, ctrl_alt_spec()), HotkeyAction::ToggleMagnification)
        .insert((KeyCode::Key0, ctrl_alt_spec()), HotkeyAction::ZoomReset)
        .insert((KeyCode::Numpad0, ctrl_alt_spec()), HotkeyAction::ZoomReset)
}

/// The action a shortcut table assigns to an event: a key press whose key and
/// exact modifiers are registered; `None` for releases, unregistered
/// combinations (including extra modifiers) and non-key events.
pub open spec fn hotkey_for(table: Map<(KeyCode, Modifiers), HotkeyAction>, event: InputEvent) -> Option<HotkeyAction> {
    match event {
        InputEvent::KeyEvent { code, pressed, modifiers } => {
            if pressed && table.contains_key((code, modifiers)) {
                Some(table[(code, modifiers)])
            } else {
                None
            }
        },
        _ => None,
    }
}

proof fn lemma_bindings_map_lookup(s: Seq<HotkeyBinding>, k: (KeyCode, Modifiers))
    requires
        distinct_keys(s),
    ensures
        bindings_map(s).contains_key(k) <==> exists|i: int| 0 <= i < s.len() && binding_key(#[trigger] s[i]) == k,
        forall|i: int| 0 <= i < s.len() && binding_key(#[trigger] s[i]) == k ==> bindings_map(s)[k] == s[i].action,
    decreases s.len(),
{
    if s.len() > 0 {
        let init = s.drop_last();
        assert(distinct_keys(init)) by {
            assert forall|i: int, j: int| 0 <= i < j < init.len() implies binding_key(#[trigger] init[i]) != binding_key(#[trigger] init[j]) by {
                assert(init[i] == s[i] && init[j] == s[j]);
            }
        }
        lemma_bindings_map_lookup(init, k);
        if bindings_map(s).contains_key(k) && binding_key(s.last()) != k {
            let i = choose|i: int| 0 <= i < init.len() && binding_key(#[trigger] init[i]) == k;
            assert(s[i] == init[i]);
        }
        assert forall|i: int| 0 <= i < s.len() && binding_key(#[trigger] s[i]) == k implies bindings_map(s)[k] == s[i].action by {
            if i < s.len() - 1 {
                assert(s[i] == init[i]);
                assert(binding_key(s[i]) != binding_key(s[s.len() - 1]));
            }
        }
        if exists|i: int| 0 <= i < s.len() && binding_key(#[trigger] s[i]) == k {
            let i = choose|i: int| 0 <= i < s.len() && binding_key(#[trigger] s[i]) == k;
            if i < s.len() - 1 {
                assert(init[i] == s[i]);
            }
        }
    }
}

proof fn lemma_bindings_map_size(s: Seq<HotkeyBinding>)
    requires
        distinct_keys(s),
    ensures
        bindings_map(s).dom().finite(),
        bindings_map(s).dom().len() == s.len(),
    decreases s.len(),
{
    if s.len() > 0 {
        let init = s.drop_last();
        assert(distinct_keys(init)) by {
            assert forall|i: int, j: int| 0 <= i < j < init.len() implies binding_key(#[trigger] init[i]) != binding_key(#[trigger] init[j]) by {
                assert(init[i] == s[i] && init[j] == s[j]);
            }
        }
        lemma_bindings_map_size(init);
        lemma_bindings_map_lookup(init, binding_key(s.last()));
        assert(!bindings_map(init).contains_key(binding_key(s.last()))) by {
            if bindings_map(init).contains_key(binding_key(s.last())) {
                let i = choose|i: int| 0 <= i < init.len() && binding_key(#[trigger] init[i]) == binding_key(s.last());
                assert(init[i] == s[i]);
            }
        }
        assert(bindings_map(s).dom() =~= bindings_map(init).dom().insert(binding_key(s.last())));
    }
}

/// Replacing a binding by one with the same key keeps the keys distinct and
/// updates that key's action.
proof fn lemma_bindings_map_update(s: Seq<HotkeyBinding>, j: int, b: HotkeyBinding)
    requires
        distinct_keys(s),
        0 <= j < s.len(),
        binding_key(s[j]) == binding_key(b),
    ensures
        distinct_keys(s.update(j, b)),
        bindings_map(s.update(j, b)) == bindings_map(s).insert(binding_key(b), b.action),
{
    let t = s.update(j, b);
    assert forall|i: int| 0 <= i < s.len() implies binding_key(#[trigger] t[i]) == binding_key(s[i]) by {}
    assert(distinct_keys(t)) by {
        assert forall|i: int, k: int| 0 <= i < k < t.len() implies binding_key(#[trigger] t[i]) != binding_key(
            #[trigger] t[k],
        ) by {
            assert(binding_key(t[i]) == binding_key(s[i]));
            assert(binding_key(t[k]) == binding_key(s[k]));
        }
    }
    let m = bindings_map(s).insert(binding_key(b), b.action);
    assert forall|k: (KeyCode, Modifiers)| #[trigger] bindings_map(t).contains_key(k) == m.contains_key(k) by {
        lemma_bindings_map_lookup(s, k);
        lemma_bindings_map_lookup(t, k);
        if exists|i: int| 0 <= i < s.len() && binding_key(#[trigger] s[i]) == k {
            let i = choose|i: int| 0 <= i < s.len() && binding_key(#[trigger] s[i]) == k;
            assert(binding_key(t[i]) == k);
        }
        if exists|i: int| 0 <= i < t.len() && binding_key(#[trigger] t[i]) == k {
            let i = choose|i: int| 0 <= i < t.len() && binding_key(#[trigger] t[i]) == k;
            assert(binding_key(s[i]) == k);
        }
        assert(binding_key(s[j]) == binding_key(b));
    }
    assert forall|k: (KeyCode, Modifiers)| bindings_map(t).contains_key(k) implies #[trigger] bindings_map(t)[k]
        == m[k] by {
        lemma_bindings_map_lookup(s, k);
        lemma_bindings_map_lookup(t, k);
        if k == binding_key(b) {
            assert(binding_key(t[j]) == k);
            assert(t[j] == b);
        } else {
            let i = choose|i: int| 0 <= i < t.len() && binding_key(#[trigger] t[i]) == k;
            assert(i != j);
            assert(t[i] == s[i]);
            assert(binding_key(s[i]) == k);
        }
    }
    assert(bindings_map(t) =~= m);
}

/// Adds `b` to a table of distinct keys, replacing the binding of the same
/// key if there is one.
fn insert_binding(table: &mut Vec<HotkeyBinding>, b: HotkeyBinding)
    requires
        distinct_keys(old(table)@),
    ensures
        distinct_keys(final(table)@),
        bindings_map(final(table)@) == bindings_map(old(table)@).insert(binding_key(b), b.action),
{
    let ghost start = table@;
    let mut j: usize = 0;
    while j < table.len()
        invariant
            table@ == start,
            start == old(table)@,
            distinct_keys(start),
            j <= start.len(),
            forall|k: int| 0 <= k < j ==> binding_key(#[trigger] start[k]) != binding_key(b),
        decreases start.len() - j,
    {
        let existing = table[j];
        if existing.code == b.code && existing.modifiers == b.modifiers {
            table.set(j, b);
            proof {
                assert(binding_key(start[j as int]) == binding_key(b));
                assert(table@ =~= start.update(j as int, b));
                lemma_bindings_map_update(start, j as int, b);
            }
            return;
        }
        j = j + 1;
    }
    table.push(b);
    proof {
        let t = table@;
        assert(t.drop_last() =~= start);
        assert(t.last() == b);
        assert(distinct_keys(t)) by {
            assert forall|i: int, k: int| 0 <= i < k < t.len() implies binding_key(#[trigger] t[i]) != binding_key(
                #[trigger] t[k],
            ) by {
                if k == t.len() - 1 {
                    assert(t[i] == start[i]);
                } else {
                    assert(t[i] == start[i] && t[k] == start[k]);
                }
            }
        }
    }
}

/// Matches keyboard events against registered hotkey bindings.
pub struct HotkeyMatcher {
    /// Registered bindings, no two sharing a `(key, modifiers)` pair.
    bindings: Vec<HotkeyBinding>,
}

impl View for HotkeyMatcher {
    type V = Map<(KeyCode, Modifiers), HotkeyAction>;

    closed spec fn view(&self) -> Map<(KeyCode, Modifiers), HotkeyAction> {
        bindings_map(self.bindings@)
    }
}

impl HotkeyMatcher {
    /// The stored bindings have distinct keys.
    #[verifier::type_invariant]
    closed spec fn distinct(&self) -> bool {
        distinct_keys(self.bindings@)
    }

    /// Creates a matcher over a table of bindings. When several bindings
    /// share a `(key, modifiers)` pair, the last one wins, as when the table
    /// is collected into a map.
    pub fn new(bindings: Vec<HotkeyBinding>) -> (r: HotkeyMatcher)
        ensures
            r@ == bindings_map(bindings@),
    {
        let mut table: Vec<HotkeyBinding> = Vec::new();
        let mut i: usize = 0;
        while i < bindings.len()
            invariant
                i <= bindings@.len(),
                distinct_keys(table@),
                bindings_map(table@) == bindings_map(bindings@.subrange(0, i as int)),
            decreases bindings@.len() - i,
        {
            let b = bindings[i];
            insert_binding(&mut table, b);
            proof {
                let next = bindings@.subrange(0, i + 1);
                assert(next.drop_last() =~= bindings@.subrange(0, i as int));
                assert(next.last() == b);
            }
            i = i + 1;
        }
        proof {
            assert(bindings@.subrange(0, bindings@.len() as int) =~= bindings@);
        }
        HotkeyMatcher { bindings: table }
    }

    /// The action registered for `event`, if it is a key press whose key and
    /// exact modifiers match a binding.
    pub fn match_event(&self, event: &InputEvent) -> (r: Option<HotkeyAction>)
        ensures
            r == hotkey_for(self@, *event),
    {
        proof {
            use_type_invariant(self);
        }
        match *event {
            InputEvent::KeyEvent { code, pressed, modifiers } => {
                if !pressed {
                    return None;
                }
                let mut i: usize = 0;
                while i < self.bindings.len()
                    invariant
                        distinct_keys(self.bindings@),
                        *event == (InputEvent::KeyEvent { code, pressed, modifiers }),
                        pressed,
                        i <= self.bindings@.len(),
                        forall|j: int| 0 <= j < i ==> binding_key(#[trigger] self.bindings@[j]) != (code, modifiers),
                    decreases self.bindings@.len() - i,
                {
                    let b = self.bindings[i];
                    if b.code == code && b.modifiers == modifiers {
                        proof {
                            lemma_bindings_map_lookup(self.bindings@, (code, modifiers));
                            assert(binding_key(self.bindings@[i as int]) == (code, modifiers));
                        }
                        return Some(b.action);
                    }
                    i = i + 1;
                }
                proof {
                    lemma_bindings_map_lookup(self.bindings@, (code, modifiers));
                }
                None
            },
            _ => None,
        }
    }

    /// The number of registered shortcuts.
    pub fn binding_count(&self) -> (r: usize)
        ensures
            r == self@.dom().len(),
    {
        proof {
            use_type_invariant(self);
            lemma_bindings_map_size(self.bindings@);
        }
        self.bindings.len()
    }
}

/// Ctrl+Alt with nothing else held.
pub fn ctrl_alt() -> (r: Modifiers)
    ensures
        r == ctrl_alt_spec(),
        r == (Modifiers { shift: false, ctrl: true, alt: true, meta: false }),
{
    Modifiers { shift: false, ctrl: true, alt: true, meta: false }
}

impl Default for HotkeyMatcher {
    /// The matcher with the four ZoomText-convention shortcuts (seven
    /// bindings, three actions with a numpad alternative).
    fn default() -> (r: HotkeyMatcher)
        ensures
            r@ == default_hotkeys(),
    {
        let m = ctrl_alt();
        let mut bindings: Vec<HotkeyBinding> = Vec::new();
        bindings.push(HotkeyBinding { code: KeyCode::Equal, modifiers: m, action: HotkeyAction::ZoomIn });
        bindings.push(HotkeyBinding { code: KeyCode::NumpadAdd, modifiers: m, action: HotkeyAction::ZoomIn });
        bindings.push(HotkeyBinding { code: KeyCode::Minus, modifiers: m, action: HotkeyAction::ZoomOut });
        bindings.push(HotkeyBinding { code: KeyCode::NumpadSubtract, modifiers: m, action: HotkeyAction::ZoomOut });
        bindings.push(HotkeyBinding { code: KeyCode::Key8, modifiers: m, action: HotkeyAction::ToggleMagnification });
        bindings.push(HotkeyBinding { code: KeyCode::Key0, modifiers: m, action: HotkeyAction::ZoomReset });
        bindings.push(HotkeyBinding { code: KeyCode::Numpad0, modifiers: m, action: HotkeyAction::ZoomReset });
        proof {
            let s = bindings@;
            assert(distinct_keys(s));
            reveal_with_fuel(bindings_map, 8);
            assert(bindings_map(s) =~= default_hotkeys());
        }
        HotkeyMatcher::new(bindings)
    }
}

/// The default table answers each of the seven documented shortcuts, held
/// with Ctrl and Alt and nothing else: `=` and numpad `+` zoom in, `-` and
/// numpad `-` zoom out, `8` toggles magnification, `0` and numpad `0` reset
/// the zoom. The same keys never fire on release or with any other
/// modifier combination, and no other key is bound.
pub proof fn lemma_default_shortcuts(code: KeyCode, modifiers: Modifiers, pressed: bool)
    ensures
        ({
            let held = Modifiers { shift: false, ctrl: true, alt: true, meta: false };
            let press = |c: KeyCode| InputEvent::KeyEvent { code: c, pressed: true, modifiers: held };
            &&& hotkey_for(default_hotkeys(), press(KeyCode::Equal)) == Some(HotkeyAction::ZoomIn)
            &&& hotkey_for(default_hotkeys(), press(KeyCode::NumpadAdd)) == Some(HotkeyAction::ZoomIn)
            &&& hotkey_for(default_hotkeys(), press(KeyCode::Minus)) == Some(HotkeyAction::ZoomOut)
            &&& hotkey_for(default_hotkeys(), press(KeyCode::NumpadSubtract)) == Some(HotkeyAction::ZoomOut)
            &&& hotkey_for(default_hotkeys(), press(KeyCode::Key8)) == Some(HotkeyAction::ToggleMagnification)
            &&& hotkey_for(default_hotkeys(), press(KeyCode::Key0)) == Some(HotkeyAction::ZoomReset)
            &&& hotkey_for(default_hotkeys(), press(KeyCode::Numpad0)) == Some(HotkeyAction::ZoomReset)
        }),
        hotkey_for(default_hotkeys(), InputEvent::KeyEvent { code, pressed, modifiers }) is Some ==> {
            &&& pressed
            &&& modifiers == (Modifiers { shift: false, ctrl: true, alt: true, meta: false })
            &&& (code == KeyCode::Equal || code == KeyCode::NumpadAdd || code == KeyCode::Minus
                || code == KeyCode::NumpadSubtract || code == KeyCode::Key8 || code == KeyCode::Key0
                || code == KeyCode::Numpad0)
        },
{
}

} // verus!
