//! Decisions of the controller helper: which key a gamepad state asks for,
//! the window messages that inject it, which window is the launcher's, and
//! the timing of focus priming and key repeat.

use vstd::prelude::*;
use vstd::string::*;

verus! {

/// Virtual-key codes that the helper injects.
pub const VK_TAB: u16 = 0x09;
pub const VK_RETURN: u16 = 0x0D;
pub const VK_ESCAPE: u16 = 0x1B;
pub const VK_LEFT: u16 = 0x25;
pub const VK_UP: u16 = 0x26;
pub const VK_RIGHT: u16 = 0x27;
pub const VK_DOWN: u16 = 0x28;
pub const VK_LSHIFT: u16 = 0xA0;

/// Window class name for the Plutonium launcher (Ultralight native shell).
pub const LAUNCHER_WINDOW_CLASS: &'static str = "UltralightWindow";

/// Minimum milliseconds between repeated key injections (auto-repeat rate).
pub const REPEAT_MS: u64 = 150;
/// How often to re-post WM_SETFOCUS so Ultralight's Overlay keeps accepting input.
pub const FOCUS_PRIME_MS: u64 = 1000;
/// How often to retry finding the target window if it hasn't appeared yet.
pub const FIND_WINDOW_RETRY_MS: u64 = 200;
/// Pause between polls.
pub const POLL_MS: u64 = 10;

/// What one gamepad asks for in one poll. The directions already combine
/// the D-pad with the left stick past its dead zone.
#[derive(Debug, Clone, Copy)]
pub struct PadState {
    pub up: bool,
    pub down: bool,
    pub left: bool,
    pub right: bool,
    /// A / Cross.
    pub confirm: bool,
    /// B / Circle.
    pub back: bool,
    /// RB / R1.
    pub tab_forward: bool,
    /// LB / L1.
    pub tab_backward: bool,
}

/// A key to inject, with Left Shift held around it or not.
#[derive(Debug, Clone, Copy)]
pub struct KeyPress {
    pub vk: u16,
    pub shift: bool,
}

/// The key that a pad asks for, by priority: up, down, left, right, confirm,
/// back, tab forward, tab backward (both tabs are the Tab key).
pub open spec fn key_of(p: PadState) -> Option<u16> {
    if p.up {
        Some(VK_UP)
    } else if p.down {
        Some(VK_DOWN)
    } else if p.left {
        Some(VK_LEFT)
    } else if p.right {
        Some(VK_RIGHT)
    } else if p.confirm {
        Some(VK_RETURN)
    } else if p.back {
        Some(VK_ESCAPE)
    } else if p.tab_forward || p.tab_backward {
        Some(VK_TAB)
    } else {
        None
    }
}

/// Tab was chosen because of tab backward: nothing of higher priority is pressed.
pub open spec fn is_back_tab(p: PadState) -> bool {
    !p.up && !p.down && !p.left && !p.right && !p.confirm && !p.back && !p.tab_forward
        && p.tab_backward
}

/// The key press a pad asks for: Shift is held only for Shift+Tab, that is
/// when Tab was chosen because of tab backward.
pub open spec fn press_of(p: PadState) -> Option<KeyPress> {
    match key_of(p) {
        Some(vk) => Some(KeyPress { vk, shift: is_back_tab(p) }),
        None => None,
    }
}

/// The key a pad asks for is always the key of a pressed button, each
/// direction its own arrow key (Windows virtual-key codes: left 0x25, up 0x26,
/// right 0x27, down 0x28, return 0x0D, escape 0x1B, tab 0x09); there is a key
/// exactly when some button is pressed; Shift goes only with a Tab that RB
/// did not ask for; and a direction pressed with no direction above it in
/// priority (up, down, left, right) moves focus that way.
pub proof fn lemma_key_follows_buttons(p: PadState)
    ensures
        press_of(p) is None <==> !(p.up || p.down || p.left || p.right || p.confirm || p.back
            || p.tab_forward || p.tab_backward),
        press_of(p) matches Some(k) ==> {
            &&& k.vk == 0x25 ==> p.left
            &&& k.vk == 0x26 ==> p.up
            &&& k.vk == 0x27 ==> p.right
            &&& k.vk == 0x28 ==> p.down
            &&& k.vk == 0x0D ==> p.confirm
            &&& k.vk == 0x1B ==> p.back
            &&& k.vk == 0x09 ==> p.tab_forward || p.tab_backward
            &&& (k.vk == 0x25 || k.vk == 0x26 || k.vk == 0x27 || k.vk == 0x28 || k.vk == 0x0D
                || k.vk == 0x1B || k.vk == 0x09)
            &&& k.shift <==> (k.vk == 0x09 && !p.tab_forward)
        },
        p.up ==> press_of(p) == Some(KeyPress { vk: 0x26, shift: false }),
        !p.up && p.down ==> press_of(p) == Some(KeyPress { vk: 0x28, shift: false }),
        !p.up && !p.down && p.left ==> press_of(p) == Some(KeyPress { vk: 0x25, shift: false }),
        !p.up && !p.down && !p.left && p.right ==> press_of(p) == Some(
            KeyPress { vk: 0x27, shift: false },
        ),
{
}

/// The arrow keys that the directions produce are posted as extended keys,
/// and no other key the pad mapping produces is.
pub proof fn lemma_direction_keys_are_extended(p: PadState)
    ensures
        press_of(p) matches Some(k) ==> (is_extended_key(k.vk) <==> (p.up || p.down || p.left
            || p.right)),
        is_extended_key(0x25) && is_extended_key(0x26) && is_extended_key(0x27)
            && is_extended_key(0x28),
{
}

/// Map one pad's state to the key to inject, if any.
pub fn key_for(p: &PadState) -> (res: Option<KeyPress>)
    ensures
        res == press_of(*p),
{
    let vk = if p.up {
        VK_UP
    } else if p.down {
        VK_DOWN
    } else if p.left {
        VK_LEFT
    } else if p.right {
        VK_RIGHT
    } else if p.confirm {
        VK_RETURN
    } else if p.back {
        VK_ESCAPE
    } else if p.tab_forward {
        VK_TAB
    } else if p.tab_backward {
        return Some(KeyPress { vk: VK_TAB, shift: true });
    } else {
        return None;
    };
    Some(KeyPress { vk, shift: false })
}

/// The key asked for by the first pad (in order) that asks for one.
pub open spec fn first_press(pads: Seq<PadState>) -> Option<KeyPress>
    decreases pads.len(),
{
    if pads.len() == 0 {
        None
    } else {
        match press_of(pads[0]) {
            Some(k) => Some(k),
            None => first_press(pads.drop_first()),
        }
    }
}

/// The first pad that asks for a key wins: the chosen key is the one some pad
/// asks for, and no pad before it asks for any; there is none only when no
/// pad asks for one.
pub proof fn lemma_first_pad_wins(pads: Seq<PadState>)
    ensures
        first_press(pads) is None <==> forall|i: int| 0 <= i < pads.len() ==> press_of(
            #[trigger] pads[i],
        ) is None,
        first_press(pads) matches Some(k) ==> exists|i: int|
            0 <= i < pads.len() && press_of(#[trigger] pads[i]) == Some(k) && forall|j: int|
                0 <= j < i ==> press_of(#[trigger] pads[j]) is None,
    decreases pads.len(),
{
    if pads.len() > 0 {
        let rest = pads.drop_first();
        lemma_first_pad_wins(rest);
        assert forall|i: int| 0 < i < pads.len() implies #[trigger] pads[i] == rest[i - 1] by {}
        match press_of(pads[0]) {
            Some(k) => {
                assert(press_of(pads[0]) == Some(k));
            },
            None => {
                if first_press(rest) is None {
                    assert forall|i: int| 0 <= i < pads.len() implies press_of(
                        #[trigger] pads[i],
                    ) is None by {
                        if i > 0 {
                            assert(press_of(rest[i - 1]) is None);
                        }
                    }
                } else {
                    let k = first_press(rest)->0;
                    let i = choose|i: int|
                        0 <= i < rest.len() && press_of(#[trigger] rest[i]) == Some(k) && forall|j: int|
                            0 <= j < i ==> press_of(#[trigger] rest[j]) is None;
                    assert(press_of(pads[i + 1]) == Some(k));
                    assert forall|j: int| 0 <= j < i + 1 implies press_of(#[trigger] pads[j]) is None by {
                        if j > 0 {
                            assert(press_of(rest[j - 1]) is None);
                        }
                    }
                }
            },
        }
    }
}

/// The messages for a key press are balanced: the key goes down once and then
/// up once; with Shift, Left Shift (0xA0) goes down first and up last; without
/// it, Left Shift is not touched.
pub proof fn lemma_strokes_balanced(k: KeyPress)
    ensures
        ({
            let s = strokes_of(k);
            let n = s.len() as int;
            &&& n == (if k.shift { 4int } else { 2int })
            &&& s[n / 2 - 1] == KeyStroke { vk: k.vk, key_up: false }
            &&& s[n / 2] == KeyStroke { vk: k.vk, key_up: true }
            &&& k.shift ==> s[0] == KeyStroke { vk: 0xA0, key_up: false } && s[3] == KeyStroke {
                vk: 0xA0,
                key_up: true,
            }
        }),
{
}

/// One key per poll: the first pad that asks for a key wins.
pub fn first_key(pads: &Vec<PadState>) -> (res: Option<KeyPress>)
    ensures
        res == first_press(pads@),
{
    let mut i: usize = 0;
    assert(pads@.skip(0) =~= pads@);
    while i < pads.len()
        invariant
            i <= pads.len(),
            first_press(pads@) == first_press(pads@.skip(i as int)),
        decreases pads.len() - i,
    {
        assert(pads@.skip(i as int).drop_first() =~= pads@.skip(i + 1));
        match key_for(&pads[i]) {
            Some(k) => return Some(k),
            None => {},
        }
        i = i + 1;
    }
    None
}

/// One posted key message.
#[derive(Debug, Clone, Copy)]
pub struct KeyStroke {
    pub vk: u16,
    pub key_up: bool,
}

/// The messages that inject a key: press and release, wrapped in a Left
/// Shift press and release when shift is asked for.
pub open spec fn strokes_of(k: KeyPress) -> Seq<KeyStroke> {
    let core = seq![KeyStroke { vk: k.vk, key_up: false }, KeyStroke { vk: k.vk, key_up: true }];
    if k.shift {
        seq![KeyStroke { vk: VK_LSHIFT, key_up: false }] + core + seq![
            KeyStroke { vk: VK_LSHIFT, key_up: true },
        ]
    } else {
        core
    }
}

/// Post a single key press+release; if `shift`, also Left Shift around it.
pub fn key_strokes(k: KeyPress) -> (res: Vec<KeyStroke>)
    ensures
        res@ == strokes_of(k),
{
    let mut res: Vec<KeyStroke> = Vec::new();
    if k.shift {
        res.push(KeyStroke { vk: VK_LSHIFT, key_up: false });
    }
    res.push(KeyStroke { vk: k.vk, key_up: false });
    res.push(KeyStroke { vk: k.vk, key_up: true });
    if k.shift {
        res.push(KeyStroke { vk: VK_LSHIFT, key_up: true });
    }
    assert(res@ =~= strokes_of(k));
    res
}

/// The arrow keys are extended keys.
pub open spec fn is_extended_key(vk: u16) -> bool {
    vk == VK_UP || vk == VK_DOWN || vk == VK_LEFT || vk == VK_RIGHT
}

/// The lParam Windows would generate for a real key event: repeat count 1 in
/// bits 0-15, the scan code (low byte of `mapped_scan`, the result of
/// MapVirtualKeyW) in bits 16-23, the extended-key flag in bit 24, bits 25-29
/// clear, and bits 30 (previous state) and 31 (transition) set on key-up.
pub fn key_lparam(vk: u16, key_up: bool, mapped_scan: u32) -> (res: u32)
    ensures
        res & 0xFFFF == 1,
        (res >> 16u32) & 0xFF == mapped_scan & 0xFF,
        (res >> 24u32) & 1 == (if is_extended_key(vk) { 1u32 } else { 0u32 }),
        // Bit 24 is set exactly for the four arrow keys (left, up, right, down).
        ((res >> 24u32) & 1 == 1) <==> (vk == 0x25 || vk == 0x26 || vk == 0x27 || vk == 0x28),
        (res >> 25u32) & 0x1F == 0,
        (res >> 30u32) == (if key_up { 3u32 } else { 0u32 }),
{
    let scan = mapped_scan & 0xFF;
    let extended: u32 = if vk == VK_UP || vk == VK_DOWN || vk == VK_LEFT || vk == VK_RIGHT {
        0x0100_0000
    } else {
        0
    };
    let scan_field = scan << 16u32;
    let flags: u32 = if key_up { 0xC000_0001 } else { 0x0000_0001 };
    let res = flags | scan_field | extended;
    assert(res & 0xFFFF == 1) by (bit_vector)
        requires
            res == flags | ((mapped_scan & 0xFF) << 16u32) | extended,
            flags == 0xC000_0001u32 || flags == 1u32,
            extended == 0x0100_0000u32 || extended == 0u32,
    ;
    assert((res >> 16u32) & 0xFF == mapped_scan & 0xFF) by (bit_vector)
        requires
            res == flags | ((mapped_scan & 0xFF) << 16u32) | extended,
            flags == 0xC000_0001u32 || flags == 1u32,
            extended == 0x0100_0000u32 || extended == 0u32,
    ;
    assert((res >> 24u32) & 1 == (if extended == 0x0100_0000u32 { 1u32 } else { 0u32 }))
        by (bit_vector)
        requires
            res == flags | ((mapped_scan & 0xFF) << 16u32) | extended,
            flags == 0xC000_0001u32 || flags == 1u32,
            extended == 0x0100_0000u32 || extended == 0u32,
    ;
    assert((res >> 25u32) & 0x1F == 0) by (bit_vector)
        requires
            res == flags | ((mapped_scan & 0xFF) << 16u32) | extended,
            flags == 0xC000_0001u32 || flags == 1u32,
            extended == 0x0100_0000u32 || extended == 0u32,
    ;
    assert((res >> 30u32) == (if flags == 0xC000_0001u32 { 3u32 } else { 0u32 })) by (bit_vector)
        requires
            res == flags | ((mapped_scan & 0xFF) << 16u32) | extended,
            flags == 0xC000_0001u32 || flags == 1u32,
            extended == 0x0100_0000u32 || extended == 0u32,
    ;
    res
}

/// A top-level window is the launcher's: it belongs to the process that was
/// spawned, has the launcher's window class and is visible.
pub fn is_launcher_window(window_pid: u32, target_pid: u32, class_name: &str, visible: bool) -> (res:
    bool)
    ensures
        res == (window_pid == target_pid && class_name@ == LAUNCHER_WINDOW_CLASS@ && visible),
{
    if window_pid != target_pid {
        return false;
    }
    if String::from_str(class_name) != String::from_str(LAUNCHER_WINDOW_CLASS) {
        return false;
    }
    visible
}

/// Whether the launcher window is known in this poll.
#[derive(Debug, Clone, Copy)]
pub enum WindowStatus {
    /// No launcher window yet (or it closed and none replaced it).
    Missing,
    /// The window was (re)found in this poll.
    JustFound,
    /// The window found earlier is still valid.
    Known,
}

/// What to do in one poll.
#[derive(Debug, Clone, Copy)]
pub struct TickPlan {
    /// Post WM_SETFOCUS and a synthetic click (once per window resolution).
    pub prime_full: bool,
    /// Post WM_SETFOCUS alone (periodic re-prime).
    pub prime_light: bool,
    /// The key to inject.
    pub key: Option<KeyPress>,
    /// How long to sleep before the next poll.
    pub sleep_ms: u64,
}

/// Milliseconds from `since` to `now`, never negative.
pub open spec fn elapsed(now: u64, since: u64) -> int {
    if now >= since {
        now - since
    } else {
        0
    }
}

/// The timing state of the controller loop, in milliseconds of a monotonic clock.
#[derive(Debug, Clone, Copy)]
pub struct ControllerClock {
    pub last_inject_ms: u64,
    pub last_focus_prime_ms: u64,
}

fn elapsed_ms(now: u64, since: u64) -> (res: u64)
    ensures
        res == elapsed(now, since),
{
    if now >= since {
        now - since
    } else {
        0
    }
}

impl ControllerClock {
    /// The clock when the loop starts at `now_ms`: no key was injected yet in
    /// the last repeat interval, and focus is due for priming.
    pub fn new(now_ms: u64) -> (res: Self)
        ensures
            res.last_inject_ms == now_ms,
            res.last_focus_prime_ms == (if now_ms >= FOCUS_PRIME_MS {
                (now_ms - FOCUS_PRIME_MS) as u64
            } else {
                0u64
            }),
    {
        let prime = if now_ms >= FOCUS_PRIME_MS {
            now_ms - FOCUS_PRIME_MS
        } else {
            0
        };
        ControllerClock { last_inject_ms: now_ms, last_focus_prime_ms: prime }
    }

    /// One poll at `now_ms`: prime focus when the window was just found or
    /// when the last prime is `FOCUS_PRIME_MS` old, then inject the first key
    /// that a pad asks for unless a key went out less than `REPEAT_MS` ago.
    /// Without a window, nothing happens and the next poll comes after
    /// `FIND_WINDOW_RETRY_MS`.
    pub fn tick(&mut self, now_ms: u64, window: WindowStatus, pads: &Vec<PadState>) -> (plan:
        TickPlan)
        ensures
            // Keys go out at least 150 ms apart and only to a known window, and
            // whenever one is asked for and allowed; focus is primed in full on
            // finding the window and lightly a second after the last prime.
            plan.key is Some <==> (!(window is Missing) && elapsed(now_ms, old(self).last_inject_ms)
                >= 150 && first_press(pads@) is Some),
            plan.prime_full <==> window is JustFound,
            plan.prime_light <==> (window is Known && elapsed(
                now_ms,
                old(self).last_focus_prime_ms,
            ) >= 1000),
            plan.sleep_ms == (if window is Missing { 200u64 } else { 10u64 }),
            plan.key is Some ==> elapsed(now_ms, old(self).last_inject_ms) >= REPEAT_MS && !(
            window is Missing),
            match window {
                WindowStatus::Missing => {
                    &&& plan == TickPlan {
                        prime_full: false,
                        prime_light: false,
                        key: None,
                        sleep_ms: FIND_WINDOW_RETRY_MS,
                    }
                    &&& *final(self) == *old(self)
                },
                _ => {
                    let prime_full = window is JustFound;
                    let prime_since = if prime_full {
                        now_ms
                    } else {
                        old(self).last_focus_prime_ms
                    };
                    let prime_light = elapsed(now_ms, prime_since) >= FOCUS_PRIME_MS;
                    let key = if elapsed(now_ms, old(self).last_inject_ms) < REPEAT_MS {
                        None
                    } else {
                        first_press(pads@)
                    };
                    &&& plan == TickPlan { prime_full, prime_light, key, sleep_ms: POLL_MS }
                    &&& final(self).last_focus_prime_ms == if prime_full || prime_light {
                        now_ms
                    } else {
                        old(self).last_focus_prime_ms
                    }
                    &&& final(self).last_inject_ms == if key is Some {
                        now_ms
                    } else {
                        old(self).last_inject_ms
                    }
                },
            },
    {
        let prime_full = match window {
            WindowStatus::Missing => {
                return TickPlan {
                    prime_full: false,
                    prime_light: false,
                    key: None,
                    sleep_ms: FIND_WINDOW_RETRY_MS,
                };
            },
            WindowStatus::JustFound => true,
            WindowStatus::Known => false,
        };
        if prime_full {
            self.last_focus_prime_ms = now_ms;
        }
        let prime_light = elapsed_ms(now_ms, self.last_focus_prime_ms) >= FOCUS_PRIME_MS;
        if prime_light {
            self.last_focus_prime_ms = now_ms;
        }
        let key = if elapsed_ms(now_ms, self.last_inject_ms) < REPEAT_MS {
            None
        } else {
            first_key(pads)
        };
        if key.is_some() {
            self.last_inject_ms = now_ms;
        }
        TickPlan { prime_full, prime_light, key, sleep_ms: POLL_MS }
    }
}

} // verus!
