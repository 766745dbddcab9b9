use vstd::prelude::*;
use crate::settings::ActivationMode;

verus! {

/// Virtual-key code of F6, the key bound when no other resolves.
pub const VK_F6: u32 = 0x75;
pub const VK_F1: u32 = 0x70;
pub const VK_SPACE: u32 = 0x20;
pub const VK_XBUTTON1: u32 = 0x05;
pub const VK_XBUTTON2: u32 = 0x06;

/// The names of the function keys, `F1` to `F12`, in order.
pub open spec fn function_key_name(n: int) -> Seq<char> {
    if n == 1 { "F1"@ } else if n == 2 { "F2"@ } else if n == 3 { "F3"@ } else if n == 4 { "F4"@ }
    else if n == 5 { "F5"@ } else if n == 6 { "F6"@ } else if n == 7 { "F7"@ } else if n == 8 { "F8"@ }
    else if n == 9 { "F9"@ } else if n == 10 { "F10"@ } else if n == 11 { "F11"@ } else { "F12"@ }
}

/// The virtual-key code that an upper-case key name stands for: a letter or a
/// digit is its own code, a space or `SPACE` is the space bar, `F1` to `F12`
/// the function keys, and `XBUTTON1` / `XBUTTON2` the side mouse buttons.
pub open spec fn key_code(name: Seq<char>) -> Option<u32> {
    if name.len() == 1 && (('A' <= name[0] && name[0] <= 'Z') || ('0' <= name[0] && name[0] <= '9')) {
        Some(name[0] as u32)
    } else if name == " "@ || name == "SPACE"@ {
        Some(VK_SPACE)
    } else if name == "XBUTTON1"@ {
        Some(VK_XBUTTON1)
    } else if name == "XBUTTON2"@ {
        Some(VK_XBUTTON2)
    } else if exists|n: int| 1 <= n <= 12 && name == #[trigger] function_key_name(n) {
        Some((VK_F1 + (choose|n: int| 1 <= n <= 12 && name == #[trigger] function_key_name(n)) - 1) as u32)
    } else {
        None
    }
}

/// The upper-case form of `s`.
pub uninterp spec fn upper_of(s: Seq<char>) -> Seq<char>;

/// Relies on str::to_uppercase: the result depends on the characters of `s` alone.
#[verifier::external_body]
fn to_upper(s: &str) -> (r: String)
    ensures
        r@ == upper_of(s@),
{
    s.to_uppercase()
}

fn str_equal(a: &str, b: &str) -> (r: bool)
    ensures
        r == (a@ == b@),
{
    let n = a.unicode_len();
    if n != b.unicode_len() {
        return false;
    }
    let mut i: usize = 0;
    while i < n
        invariant
            n == a@.len(),
            n == b@.len(),
            i <= n,
            a@.subrange(0, i as int) == b@.subrange(0, i as int),
        decreases n - i,
    {
        if a.get_char(i) != b.get_char(i) {
            assert(a@[i as int] != b@[i as int]);
            return false;
        }
        assert(a@.subrange(0, i + 1) == a@.subrange(0, i as int).push(a@[i as int]));
        assert(b@.subrange(0, i + 1) == b@.subrange(0, i as int).push(b@[i as int]));
        i = i + 1;
    }
    assert(a@ == a@.subrange(0, n as int));
    assert(b@ == b@.subrange(0, n as int));
    true
}

proof fn lemma_function_key_names_distinct(n: int, m: int)
    requires
        1 <= n <= 12,
        1 <= m <= 12,
        function_key_name(n) == function_key_name(m),
    ensures
        n == m,
{
    reveal_strlit("F1"); reveal_strlit("F2"); reveal_strlit("F3"); reveal_strlit("F4");
    reveal_strlit("F5"); reveal_strlit("F6"); reveal_strlit("F7"); reveal_strlit("F8");
    reveal_strlit("F9"); reveal_strlit("F10"); reveal_strlit("F11"); reveal_strlit("F12");
    if n != m {
        let a = function_key_name(n);
        let b = function_key_name(m);
        assert(a.len() != b.len() || a[1] != b[1] || (a.len() == 3 && a[2] != b[2]));
    }
}

proof fn lemma_function_key_name_len(n: int)
    requires
        1 <= n <= 12,
    ensures
        2 <= function_key_name(n).len() <= 3,
        function_key_name(n)[0] == 'F',
        function_key_name(n) != " "@,
        function_key_name(n) != "SPACE"@,
        function_key_name(n) != "XBUTTON1"@,
        function_key_name(n) != "XBUTTON2"@,
{
    reveal_strlit("F1"); reveal_strlit("F2"); reveal_strlit("F3"); reveal_strlit("F4");
    reveal_strlit("F5"); reveal_strlit("F6"); reveal_strlit("F7"); reveal_strlit("F8");
    reveal_strlit("F9"); reveal_strlit("F10"); reveal_strlit("F11"); reveal_strlit("F12");
    reveal_strlit(" "); reveal_strlit("SPACE"); reveal_strlit("XBUTTON1"); reveal_strlit("XBUTTON2");
    assert(function_key_name(n)[0] == 'F');
    assert("SPACE"@[0] == 'S');
    assert("XBUTTON1"@[0] == 'X');
    assert("XBUTTON2"@[0] == 'X');
}

/// The virtual-key code named by `upper`, a key name already in upper case.
pub fn key_code_of_upper(upper: &str) -> (r: Option<u32>)
    ensures
        r == key_code(upper@),
{
    if upper.unicode_len() == 1 {
        let c = upper.get_char(0);
        if ('A' <= c && c <= 'Z') || ('0' <= c && c <= '9') {
            return Some(c as u32);
        }
    }
    if str_equal(upper, " ") || str_equal(upper, "SPACE") {
        proof { reveal_strlit(" "); }
        return Some(VK_SPACE);
    }
    proof { reveal_strlit(" "); reveal_strlit("SPACE"); }
    if str_equal(upper, "XBUTTON1") {
        return Some(VK_XBUTTON1);
    }
    if str_equal(upper, "XBUTTON2") {
        return Some(VK_XBUTTON2);
    }
    let names: [&str; 12] = ["F1", "F2", "F3", "F4", "F5", "F6", "F7", "F8", "F9", "F10", "F11", "F12"];
    let mut i: usize = 0;
    while i < 12
        invariant
            i <= 12,
            forall|k: int| 0 <= k < 12 ==> (#[trigger] names@[k])@ == function_key_name(k + 1),
            forall|k: int| 1 <= k <= i ==> upper@ != #[trigger] function_key_name(k),
        decreases 12 - i,
    {
        if str_equal(upper, names[i]) {
            proof {
                let n = (i + 1) as int;
                assert(upper@ == function_key_name(n));
                lemma_function_key_name_len(n);
                assert(exists|k: int| 1 <= k <= 12 && upper@ == #[trigger] function_key_name(k));
                let m = choose|m: int| 1 <= m <= 12 && upper@ == #[trigger] function_key_name(m);
                lemma_function_key_names_distinct(n, m);
            }
            return Some(VK_F1 + i as u32);
        }
        i = i + 1;
    }
    None
}

/// The virtual-key code of a key name, in any case.
pub fn parse_key(key: &str) -> (r: Option<u32>)
    ensures
        r == key_code(upper_of(key@)),
{
    let upper = to_upper(key);
    key_code_of_upper(upper.as_str())
}

/// The key that a binding of `key` watches: F6 when no name is given or the
/// name stands for no key.
pub fn resolve_key(key: Option<&str>) -> (r: u32)
    ensures
        r == (match key {
            Some(k) => match key_code(upper_of(k@)) {
                Some(c) => c,
                None => VK_F6,
            },
            None => VK_F6,
        }),
{
    match key {
        Some(k) => match parse_key(k) {
            Some(c) => c,
            None => VK_F6,
        },
        None => VK_F6,
    }
}

/// What one poll of the bound key saw.
#[derive(Debug, Clone, Copy, PartialEq, Eq, Structural)]
pub enum KeyEdge {
    /// The engine is disarmed: the key is not sampled.
    Inert,
    /// The key is as it was at the previous poll.
    Steady,
    /// The key went down.
    Press,
    /// The key came up.
    Release,
}

/// The edge seen when the key was `was_down` and is now `is_down`.
pub open spec fn edge_of(was_down: bool, armed: bool, is_down: bool) -> KeyEdge {
    if !armed {
        KeyEdge::Inert
    } else if is_down && !was_down {
        KeyEdge::Press
    } else if !is_down && was_down {
        KeyEdge::Release
    } else {
        KeyEdge::Steady
    }
}

/// What the monitor asks of the engine.
#[derive(Debug, Clone, Copy, PartialEq, Eq, Structural)]
pub enum HotkeyAction {
    Nothing,
    Toggle,
    Start,
    Stop,
}

/// A press toggles the engine in toggle mode and starts it in hold mode; a
/// release stops it in hold mode only.
pub open spec fn action_of(edge: KeyEdge, mode: ActivationMode) -> HotkeyAction {
    match edge {
        KeyEdge::Press => match mode {
            ActivationMode::Toggle => HotkeyAction::Toggle,
            ActivationMode::Hold => HotkeyAction::Start,
        },
        KeyEdge::Release => match mode {
            ActivationMode::Toggle => HotkeyAction::Nothing,
            ActivationMode::Hold => HotkeyAction::Stop,
        },
        _ => HotkeyAction::Nothing,
    }
}

/// The engine action that an edge calls for under `mode`.
pub fn action_for(edge: KeyEdge, mode: ActivationMode) -> (r: HotkeyAction)
    ensures
        r == action_of(edge, mode),
{
    match edge {
        KeyEdge::Press => match mode {
            ActivationMode::Toggle => HotkeyAction::Toggle,
            ActivationMode::Hold => HotkeyAction::Start,
        },
        KeyEdge::Release => match mode {
            ActivationMode::Toggle => HotkeyAction::Nothing,
            ActivationMode::Hold => HotkeyAction::Stop,
        },
        _ => HotkeyAction::Nothing,
    }
}

/// What the presence service is told after an action.
#[derive(Debug, Clone, Copy, PartialEq, Eq, Structural)]
pub enum PresenceUpdate {
    Unchanged,
    Active,
    Idle,
}

/// After a toggle the presence follows whether the engine now runs; a start
/// reports activity and a stop idleness.
pub fn presence_after(action: HotkeyAction, running_now: bool) -> (r: PresenceUpdate)
    ensures
        r == (match action {
            HotkeyAction::Toggle => if running_now { PresenceUpdate::Active } else { PresenceUpdate::Idle },
            HotkeyAction::Start => PresenceUpdate::Active,
            HotkeyAction::Stop => PresenceUpdate::Idle,
            HotkeyAction::Nothing => PresenceUpdate::Unchanged,
        }),
{
    match action {
        HotkeyAction::Toggle => if running_now { PresenceUpdate::Active } else { PresenceUpdate::Idle },
        HotkeyAction::Start => PresenceUpdate::Active,
        HotkeyAction::Stop => PresenceUpdate::Idle,
        HotkeyAction::Nothing => PresenceUpdate::Unchanged,
    }
}

/// The two-sample edge detector of the hotkey monitor: it remembers whether
/// the key was down at the last poll made while armed.
pub struct HotkeyMonitor {
    was_down: bool,
}

impl HotkeyMonitor {
    pub closed spec fn was_down(&self) -> bool {
        self.was_down
    }

    /// A monitor that takes the key to be up.
    pub fn new() -> (r: HotkeyMonitor)
        ensures
            !r.was_down(),
    {
        HotkeyMonitor { was_down: false }
    }

    /// One poll: the key is `is_down`, and the engine is `armed`. A disarmed
    /// poll samples nothing and forgets nothing.
    pub fn poll(&mut self, armed: bool, is_down: bool) -> (r: KeyEdge)
        ensures
            r == edge_of(old(self).was_down(), armed, is_down),
            final(self).was_down() == if armed { is_down } else { old(self).was_down() },
    {
        if !armed {
            return KeyEdge::Inert;
        }
        let r = if is_down && !self.was_down {
            KeyEdge::Press
        } else if !is_down && self.was_down {
            KeyEdge::Release
        } else {
            KeyEdge::Steady
        };
        self.was_down = is_down;
        r
    }
}

/// The actions of a monitor that starts with the key `was_down` and polls,
/// armed, the samples `samples` in turn.
pub open spec fn actions_of(was_down: bool, samples: Seq<bool>, mode: ActivationMode) -> Seq<HotkeyAction>
    decreases samples.len(),
{
    if samples.len() == 0 {
        Seq::empty()
    } else {
        seq![action_of(edge_of(was_down, true, samples[0]), mode)]
            + actions_of(samples[0], samples.drop_first(), mode)
    }
}

/// `k` samples that are all `b`.
pub open spec fn held(k: nat, b: bool) -> Seq<bool> {
    Seq::new(k, |i: int| b)
}

/// `k` polls that ask nothing.
pub open spec fn no_actions(k: nat) -> Seq<HotkeyAction> {
    Seq::new(k, |i: int| HotkeyAction::Nothing)
}

proof fn lemma_steady_prefix(b: bool, k: nat, rest: Seq<bool>, mode: ActivationMode)
    ensures
        actions_of(b, held(k, b) + rest, mode) == no_actions(k) + actions_of(b, rest, mode),
    decreases k,
{
    if k == 0 {
        assert(held(0, b) + rest == rest);
        assert(no_actions(0) + actions_of(b, rest, mode) == actions_of(b, rest, mode));
    } else {
        let s = held(k, b) + rest;
        assert(s.drop_first() == held((k - 1) as nat, b) + rest);
        lemma_steady_prefix(b, (k - 1) as nat, rest, mode);
        assert(no_actions(k) == seq![HotkeyAction::Nothing] + no_actions((k - 1) as nat));
        assert(no_actions(k) + actions_of(b, rest, mode) == seq![HotkeyAction::Nothing]
            + (no_actions((k - 1) as nat) + actions_of(b, rest, mode)));
    }
}

/// A press held for `n` polls and then a release held for `m` polls, from a
/// key that was up: in hold mode exactly one start, on the press, and exactly one
/// stop, on the release; in toggle mode exactly one toggle, on the press, and
/// nothing on the release.
pub proof fn lemma_press_release(n: nat, m: nat, mode: ActivationMode)
    requires
        n >= 1,
        m >= 1,
    ensures
        actions_of(false, held(n, true) + held(m, false), mode) == (match mode {
            ActivationMode::Hold => seq![HotkeyAction::Start] + no_actions((n - 1) as nat)
                + seq![HotkeyAction::Stop] + no_actions((m - 1) as nat),
            ActivationMode::Toggle => seq![HotkeyAction::Toggle] + no_actions((n - 1) as nat)
                + seq![HotkeyAction::Nothing] + no_actions((m - 1) as nat),
        }),
{
    let s = held(n, true) + held(m, false);
    let tail_release = held(m, false);
    assert(tail_release.drop_first() == held((m - 1) as nat, false));
    lemma_steady_prefix(false, (m - 1) as nat, Seq::empty(), mode);
    assert(held((m - 1) as nat, false) + Seq::<bool>::empty() == held((m - 1) as nat, false));
    assert(actions_of(false, Seq::<bool>::empty(), mode) == Seq::<HotkeyAction>::empty());
    assert(no_actions((m - 1) as nat) + Seq::<HotkeyAction>::empty() == no_actions((m - 1) as nat));
    let release_act = action_of(KeyEdge::Release, mode);
    assert(actions_of(true, tail_release, mode) == seq![release_act] + no_actions((m - 1) as nat));
    assert(s.drop_first() == held((n - 1) as nat, true) + tail_release);
    lemma_steady_prefix(true, (n - 1) as nat, tail_release, mode);
    let press_act = action_of(KeyEdge::Press, mode);
    assert(actions_of(false, s, mode) == seq![press_act] + (no_actions((n - 1) as nat)
        + (seq![release_act] + no_actions((m - 1) as nat))));
    assert(seq![press_act] + (no_actions((n - 1) as nat) + (seq![release_act] + no_actions((m - 1) as nat)))
        == seq![press_act] + no_actions((n - 1) as nat) + seq![release_act] + no_actions((m - 1) as nat));
}

/// The registration of the hotkey monitor thread. A new monitor may be
/// recorded only once the previous one has been retired, so at most one is
/// ever live.
pub struct MonitorSlot {
    live: bool,
}

impl MonitorSlot {
    pub closed spec fn is_live(&self) -> bool {
        self.live
    }

    /// A slot with no monitor.
    pub fn new() -> (r: MonitorSlot)
        ensures
            !r.is_live(),
    {
        MonitorSlot { live: false }
    }

    /// Retires the current monitor; returns whether there was one, which the
    /// caller then signals and joins before spawning another.
    pub fn retire(&mut self) -> (had_monitor: bool)
        ensures
            had_monitor == old(self).is_live(),
            !final(self).is_live(),
    {
        let had = self.live;
        self.live = false;
        had
    }

    /// Records a newly spawned monitor; only an empty slot takes one.
    pub fn install(&mut self)
        requires
            !old(self).is_live(),
        ensures
            final(self).is_live(),
    {
        self.live = true;
    }
}

} // verus!
