use ep_start::input::{
    EscapeOutcome, GlobalInputAction, GlobalStartShortcut, InputState, KeyDecision, VK_ESCAPE, VK_LSHIFT, VK_LWIN,
    WM_KEYDOWN, WM_KEYUP, WM_SYSKEYDOWN, chord_complete, is_foreground_switch_key, is_start_menu_host_image, key_transition, modifier_mask,
    shortcut_code,
};

const KEY_A: u16 = 0x41;

#[test]
fn win_shift_chord_toggles_once() {
    let mut state = InputState::new();
    assert_eq!(state.current_shortcut(), GlobalStartShortcut::WinShift);
    let down_win = state.handle_shortcut_event(VK_LWIN, 0, true, 1000);
    assert_eq!(down_win.post, None);
    assert_eq!(down_win.decision, KeyDecision::Pass);
    let down_shift = state.handle_shortcut_event(VK_LSHIFT, 0, true, 1010);
    assert_eq!(down_shift.post, Some(GlobalInputAction::Toggle));
    let repeat = state.handle_shortcut_event(VK_LSHIFT, 0, true, 1020);
    assert_eq!(repeat.post, None);
}

#[test]
fn toggles_closer_than_250_ms_are_dropped() {
    let mut state = InputState::new();
    assert!(state.claim_toggle_event(1000));
    assert!(!state.claim_toggle_event(1100));
    assert!(state.claim_toggle_event(1400));
    assert!(!state.claim_toggle_event(1200));
}

#[test]
fn a_win_tap_toggles_in_win_mode() {
    let mut state = InputState::new();
    state.set_shortcut(GlobalStartShortcut::Win);
    assert_eq!(state.current_shortcut(), GlobalStartShortcut::Win);
    let down = state.handle_shortcut_event(VK_LWIN, 0, true, 5000);
    assert_eq!(down.decision, KeyDecision::Swallow);
    assert_eq!(down.post, None);
    let up = state.handle_shortcut_event(VK_LWIN, 0, false, 5050);
    assert_eq!(up.decision, KeyDecision::Swallow);
    assert_eq!(up.post, Some(GlobalInputAction::Toggle));
}

#[test]
fn a_win_combination_is_replayed_in_win_mode() {
    let mut state = InputState::new();
    state.set_shortcut(GlobalStartShortcut::Win);
    state.handle_shortcut_event(VK_LWIN, 0, true, 5000);
    let combination = state.handle_shortcut_event(KEY_A, 0, true, 5010);
    assert_eq!(combination.decision, KeyDecision::Replay { win_key: VK_LWIN, key: KEY_A });
    assert!(state.finish_win_replay(true));
    let up = state.handle_shortcut_event(VK_LWIN, 0, false, 5100);
    assert_eq!(up.post, None);
    assert_eq!(up.release_win, Some(VK_LWIN));
}

#[test]
fn escape_dismisses_the_visible_surface_once() {
    let mut state = InputState::new();
    assert_eq!(state.handle_escape(true, false), EscapeOutcome { swallow: false, post_dismiss: false });
    state.set_surface_visible(true);
    assert_eq!(state.handle_escape(true, false), EscapeOutcome { swallow: true, post_dismiss: true });
    assert_eq!(state.handle_escape(true, false), EscapeOutcome { swallow: true, post_dismiss: false });
    assert_eq!(state.handle_escape(false, true), EscapeOutcome { swallow: true, post_dismiss: false });
    assert_eq!(state.handle_escape(false, true), EscapeOutcome { swallow: false, post_dismiss: false });
}

#[test]
fn key_helpers() {
    assert_eq!(shortcut_code(GlobalStartShortcut::Win), 1);
    assert!(chord_complete(0b0101));
    assert!(!chord_complete(0b0100));
    assert_eq!(modifier_mask(0x10, 0x36), 2);
    assert_eq!(modifier_mask(0x10, 0x2A), 1);
    assert_eq!(modifier_mask(KEY_A as u32, 0), 0);
    assert!(key_transition(WM_SYSKEYDOWN).key_down);
    assert!(key_transition(WM_KEYUP).key_up);
    assert!(!key_transition(WM_KEYDOWN).key_up);
    assert!(is_foreground_switch_key(0x09, true, false));
    assert!(is_foreground_switch_key(VK_ESCAPE, false, true));
    assert!(!is_foreground_switch_key(KEY_A, true, true));
}

#[test]
fn native_start_reopen_is_blocked_briefly() {
    let mut state = InputState::new();
    state.set_shortcut(GlobalStartShortcut::Win);
    state.set_surface_visible(true);
    state.handle_shortcut_event(VK_LWIN, 0, true, 7000);
    assert!(state.native_start_reopen_blocked(7500));
    assert!(!state.native_start_reopen_blocked(8000));
}

#[test]
fn the_native_start_menu_host_is_recognised() {
    assert!(is_start_menu_host_image("C:\\Windows\\SystemApps\\StartMenuExperienceHost.exe"));
    assert!(is_start_menu_host_image("startmenuexperiencehost.exe"));
    assert!(!is_start_menu_host_image("C:\\Windows\\explorer.exe"));
    assert!(!is_start_menu_host_image("C:\\x\\notstartmenuexperiencehost.exe"));
}
