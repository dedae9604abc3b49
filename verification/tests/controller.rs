use plutonium_launcher::controller::{
    first_key, is_launcher_window, key_for, key_lparam, key_strokes, ControllerClock, KeyPress,
    PadState, WindowStatus, FIND_WINDOW_RETRY_MS, POLL_MS, VK_DOWN, VK_ESCAPE, VK_LSHIFT,
    VK_RETURN, VK_TAB, VK_UP,
};

fn idle() -> PadState {
    PadState {
        up: false,
        down: false,
        left: false,
        right: false,
        confirm: false,
        back: false,
        tab_forward: false,
        tab_backward: false,
    }
}

#[test]
fn key_priority() {
    assert!(key_for(&idle()).is_none());
    let p = PadState { up: true, down: true, confirm: true, ..idle() };
    let k = key_for(&p).unwrap();
    assert_eq!((k.vk, k.shift), (VK_UP, false));
    let p = PadState { down: true, back: true, ..idle() };
    assert_eq!(key_for(&p).unwrap().vk, VK_DOWN);
    let p = PadState { confirm: true, back: true, ..idle() };
    assert_eq!(key_for(&p).unwrap().vk, VK_RETURN);
    let p = PadState { back: true, ..idle() };
    assert_eq!(key_for(&p).unwrap().vk, VK_ESCAPE);
}

#[test]
fn tab_backward_is_shift_tab() {
    let k = key_for(&PadState { tab_backward: true, ..idle() }).unwrap();
    assert_eq!((k.vk, k.shift), (VK_TAB, true));
    let k = key_for(&PadState { tab_forward: true, ..idle() }).unwrap();
    assert_eq!((k.vk, k.shift), (VK_TAB, false));
    // Shift is held only for the Shift+Tab that the backward-tab button asks for.
    let k = key_for(&PadState { up: true, tab_backward: true, ..idle() }).unwrap();
    assert_eq!((k.vk, k.shift), (VK_UP, false));
    let k = key_for(&PadState { tab_forward: true, tab_backward: true, ..idle() }).unwrap();
    assert_eq!((k.vk, k.shift), (VK_TAB, false));
}

#[test]
fn first_pad_with_a_key_wins() {
    let pads = vec![idle(), PadState { back: true, ..idle() }, PadState { up: true, ..idle() }];
    assert_eq!(first_key(&pads).unwrap().vk, VK_ESCAPE);
    assert!(first_key(&vec![idle(), idle()]).is_none());
    assert!(first_key(&vec![]).is_none());
}

#[test]
fn strokes_wrap_shift_around_the_key() {
    let s = key_strokes(KeyPress { vk: VK_TAB, shift: true });
    let got: Vec<(u16, bool)> = s.iter().map(|k| (k.vk, k.key_up)).collect();
    assert_eq!(got, vec![(VK_LSHIFT, false), (VK_TAB, false), (VK_TAB, true), (VK_LSHIFT, true)]);
    let s = key_strokes(KeyPress { vk: VK_UP, shift: false });
    let got: Vec<(u16, bool)> = s.iter().map(|k| (k.vk, k.key_up)).collect();
    assert_eq!(got, vec![(VK_UP, false), (VK_UP, true)]);
}

#[test]
fn lparam_layout() {
    // Up arrow, scan code 0x48: extended key.
    assert_eq!(key_lparam(VK_UP, false, 0x48), 0x0148_0001);
    assert_eq!(key_lparam(VK_UP, true, 0x48), 0xC148_0001);
    // Return, scan code 0x1C: not extended; high bits of the mapping are dropped.
    assert_eq!(key_lparam(VK_RETURN, false, 0x1C), 0x001C_0001);
    assert_eq!(key_lparam(VK_RETURN, true, 0xE01C), 0xC01C_0001);
}

#[test]
fn launcher_window_match() {
    assert!(is_launcher_window(42, 42, "UltralightWindow", true));
    assert!(!is_launcher_window(41, 42, "UltralightWindow", true));
    assert!(!is_launcher_window(42, 42, "UltralightWindow", false));
    assert!(!is_launcher_window(42, 42, "ConsoleWindowClass", true));
    assert!(!is_launcher_window(42, 42, "", true));
}

#[test]
fn clock_waits_for_window() {
    let mut c = ControllerClock::new(5_000);
    let p = c.tick(5_010, WindowStatus::Missing, &vec![PadState { up: true, ..idle() }]);
    assert!(!p.prime_full && !p.prime_light && p.key.is_none());
    assert_eq!(p.sleep_ms, FIND_WINDOW_RETRY_MS);
    assert_eq!(c.last_inject_ms, 5_000);
}

#[test]
fn clock_primes_and_throttles() {
    let pads = vec![PadState { up: true, ..idle() }];
    let mut c = ControllerClock::new(0);
    // Window just found at 100 ms: full prime, but still within the first repeat interval.
    let p = c.tick(100, WindowStatus::JustFound, &pads);
    assert!(p.prime_full && !p.prime_light && p.key.is_none());
    assert_eq!(p.sleep_ms, POLL_MS);
    assert_eq!(c.last_focus_prime_ms, 100);
    // 150 ms after start: key goes out.
    let p = c.tick(150, WindowStatus::Known, &pads);
    assert!(!p.prime_full && !p.prime_light);
    assert_eq!(p.key.unwrap().vk, VK_UP);
    assert_eq!(c.last_inject_ms, 150);
    // 100 ms later: throttled.
    let p = c.tick(250, WindowStatus::Known, &pads);
    assert!(p.key.is_none());
    // A second after the prime: light re-prime.
    let p = c.tick(1_100, WindowStatus::Known, &pads);
    assert!(p.prime_light && !p.prime_full);
    assert_eq!(c.last_focus_prime_ms, 1_100);
    assert!(p.key.is_some());
}

#[test]
fn clock_start_values() {
    let c = ControllerClock::new(300);
    assert_eq!((c.last_inject_ms, c.last_focus_prime_ms), (300, 0));
    let c = ControllerClock::new(5_000);
    assert_eq!((c.last_inject_ms, c.last_focus_prime_ms), (5_000, 4_000));
}
