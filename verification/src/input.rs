//! Decisions of the global keyboard shortcut that opens and dismisses the Start
//! surface. The platform layer feeds keyboard events into an [`InputState`] and
//! carries out what comes back: posting a message to the surface window, or
//! sending synthetic key strokes.

use crate::injector::{eq_ignore_ascii_case, file_name, image_file_is};
use vstd::prelude::*;

verus! {

pub const LEFT_SHIFT_DOWN: u8 = 1;
pub const RIGHT_SHIFT_DOWN: u8 = 2;
pub const LEFT_WIN_DOWN: u8 = 4;
pub const RIGHT_WIN_DOWN: u8 = 8;
pub const SHIFT_DOWN: u8 = 3;
pub const WIN_DOWN: u8 = 12;
pub const NATIVE_START_BLOCK_MS: u32 = 900;
pub const NATIVE_START_EVENT_GAP_MS: u32 = 180;
pub const TOGGLE_EVENT_GAP_MS: u32 = 250;

/// Win32 virtual-key codes of the keys the shortcut logic looks at.
pub const VK_TAB: u16 = 0x09;
pub const VK_SHIFT: u16 = 0x10;
pub const VK_CONTROL: u16 = 0x11;
pub const VK_MENU: u16 = 0x12;
pub const VK_ESCAPE: u16 = 0x1B;
pub const VK_LWIN: u16 = 0x5B;
pub const VK_RWIN: u16 = 0x5C;
pub const VK_LSHIFT: u16 = 0xA0;
pub const VK_RSHIFT: u16 = 0xA1;

/// Hardware scan code of the right shift key.
pub const RIGHT_SHIFT_SCAN_CODE: u32 = 0x36;

/// Keyboard messages the low-level hook receives.
pub const WM_KEYDOWN: u32 = 0x0100;
pub const WM_KEYUP: u32 = 0x0101;
pub const WM_SYSKEYDOWN: u32 = 0x0104;
pub const WM_SYSKEYUP: u32 = 0x0105;

/// What the surface window is asked to do.
#[derive(Clone, Copy, Debug, PartialEq, Eq, Structural)]
pub enum GlobalInputAction {
    Toggle,
    Dismiss,
}

/// Which key combination opens the Start surface.
#[derive(Clone, Copy, Debug, PartialEq, Eq, Structural)]
pub enum GlobalStartShortcut {
    WinShift,
    Win,
}

pub open spec fn spec_shortcut_code(shortcut: GlobalStartShortcut) -> u8 {
    match shortcut {
        GlobalStartShortcut::WinShift => 0,
        GlobalStartShortcut::Win => 1,
    }
}

/// The number under which a shortcut mode is stored.
pub fn shortcut_code(shortcut: GlobalStartShortcut) -> (r: u8)
    ensures
        r == spec_shortcut_code(shortcut),
{
    match shortcut {
        GlobalStartShortcut::WinShift => 0,
        GlobalStartShortcut::Win => 1,
    }
}

/// Milliseconds from `earlier` to `later` on the wrapping 32-bit message clock.
pub open spec fn elapsed_ms(later: u32, earlier: u32) -> u32 {
    vstd::wrapping::u32_specs::wrapping_sub(later, earlier)
}

/// A toggle at `event_time` counts when there was none before, or when it is more
/// than 250 ms away from the previous one in either direction.
pub open spec fn toggle_claim_ok(previous: u32, event_time: u32) -> bool {
    previous == 0 || (elapsed_ms(event_time, previous) > TOGGLE_EVENT_GAP_MS && elapsed_ms(
        previous,
        event_time,
    ) > TOGGLE_EVENT_GAP_MS)
}

/// A native Start event counts when there was none before, or when it comes more
/// than 180 ms after the previous one.
pub open spec fn native_start_claim_ok(previous: u32, event_time: u32) -> bool {
    previous == 0 || elapsed_ms(event_time, previous) > NATIVE_START_EVENT_GAP_MS
}

pub open spec fn spec_chord_complete(state: u8) -> bool {
    state & SHIFT_DOWN != 0 && state & WIN_DOWN != 0
}

/// The modifier bit a key stands for, or 0.
pub open spec fn spec_modifier_mask(key: u16, scan_code: u32) -> u8 {
    if key == VK_SHIFT {
        if scan_code == RIGHT_SHIFT_SCAN_CODE {
            RIGHT_SHIFT_DOWN
        } else {
            LEFT_SHIFT_DOWN
        }
    } else if key == VK_LSHIFT {
        LEFT_SHIFT_DOWN
    } else if key == VK_RSHIFT {
        RIGHT_SHIFT_DOWN
    } else if key == VK_LWIN {
        LEFT_WIN_DOWN
    } else if key == VK_RWIN {
        RIGHT_WIN_DOWN
    } else {
        0
    }
}

/// The modifier state after a key goes down or up.
pub open spec fn next_modifiers(previous: u8, modifier: u8, key_down: bool) -> u8 {
    if key_down {
        previous | modifier
    } else {
        previous & !modifier
    }
}

/// Both shift and Win are held.
pub fn chord_complete(state: u8) -> (r: bool)
    ensures
        r == spec_chord_complete(state),
{
    state & SHIFT_DOWN != 0 && state & WIN_DOWN != 0
}

/// The modifier bit of a key reported by the low-level keyboard hook.
pub fn modifier_mask(key: u32, scan_code: u32) -> (r: u8)
    ensures
        r == spec_modifier_mask(key as u16, scan_code),
{
    let key = key as u16;
    if key == VK_SHIFT {
        if scan_code == RIGHT_SHIFT_SCAN_CODE {
            RIGHT_SHIFT_DOWN
        } else {
            LEFT_SHIFT_DOWN
        }
    } else if key == VK_LSHIFT {
        LEFT_SHIFT_DOWN
    } else if key == VK_RSHIFT {
        RIGHT_SHIFT_DOWN
    } else if key == VK_LWIN {
        LEFT_WIN_DOWN
    } else if key == VK_RWIN {
        RIGHT_WIN_DOWN
    } else {
        0
    }
}

/// The modifier bit of a key reported by raw keyboard input.
pub fn raw_modifier_mask(vkey: u16, make_code: u16) -> (r: u8)
    ensures
        r == spec_modifier_mask(vkey, make_code as u32),
{
    modifier_mask(vkey as u32, make_code as u32)
}

/// Keys after which another window may take the foreground: either Win key,
/// Alt+Tab and Ctrl+Esc.
pub fn is_foreground_switch_key(key: u16, alt_down: bool, control_down: bool) -> (r: bool)
    ensures
        r == (key == VK_LWIN || key == VK_RWIN || (key == VK_TAB && alt_down) || (key == VK_ESCAPE
            && control_down)),
{
    key == VK_LWIN || key == VK_RWIN || (key == VK_TAB && alt_down) || (key == VK_ESCAPE
        && control_down)
}

/// Whether the process image `path` of a window that took the foreground is
/// the host of the native Start menu: its file name is
/// `startmenuexperiencehost.exe`, in any case.
pub fn is_start_menu_host_image(path: &str) -> (r: bool)
    ensures
        r == eq_ignore_ascii_case(file_name(path@), "startmenuexperiencehost.exe"@),
{
    image_file_is(path, "startmenuexperiencehost.exe")
}

/// Whether a keyboard message is a key press and whether it is a key release.
#[derive(Clone, Copy, Debug, PartialEq, Eq, Structural)]
pub struct KeyTransition {
    pub key_down: bool,
    pub key_up: bool,
}

pub fn key_transition(message: u32) -> (r: KeyTransition)
    ensures
        r.key_down == (message == WM_KEYDOWN || message == WM_SYSKEYDOWN),
        r.key_up == (message == WM_KEYUP || message == WM_SYSKEYUP),
{
    KeyTransition {
        key_down: message == WM_KEYDOWN || message == WM_SYSKEYDOWN,
        key_up: message == WM_KEYUP || message == WM_SYSKEYUP,
    }
}

/// What becomes of the key event itself.
#[derive(Clone, Copy, Debug, PartialEq, Eq, Structural)]
pub enum KeyDecision {
    /// Hand the event on to the next hook.
    Pass,
    /// Keep the event from reaching other applications.
    Swallow,
    /// Send the Win key and `key` as synthetic presses, then report the outcome
    /// with [`InputState::finish_win_replay`], which decides the event's fate.
    Replay { win_key: u16, key: u16 },
}

/// The outcome of a keyboard event in the low-level hook.
#[derive(Clone, Copy, Debug, PartialEq, Eq, Structural)]
pub struct KeyOutcome {
    pub decision: KeyDecision,
    /// A message to post to the surface window.
    pub post: Option<GlobalInputAction>,
    /// A replayed Win key to release with a synthetic key-up.
    pub release_win: Option<u16>,
}

/// The outcome of an Escape key event.
#[derive(Clone, Copy, Debug, PartialEq, Eq, Structural)]
pub struct EscapeOutcome {
    pub swallow: bool,
    pub post_dismiss: bool,
}

/// The outcome of a foreground change to the native Start menu.
#[derive(Clone, Copy, Debug, PartialEq, Eq, Structural)]
pub struct NativeStartOutcome {
    /// Close the native Start menu with a synthetic Escape.
    pub dismiss_native: bool,
    /// Ask the surface to open instead.
    pub post_toggle: bool,
}

/// Everything the shortcut logic remembers between keyboard events.
#[derive(Clone, Copy, Debug, PartialEq, Eq, Structural)]
pub struct InputState {
    pub surface_visible: bool,
    pub modifier_state: u8,
    pub raw_modifier_state: u8,
    pub last_toggle_event_time: u32,
    pub last_native_start_event_time: u32,
    pub native_start_reopen_block_time: u32,
    pub escape_captured: bool,
    pub shortcut_mode: u8,
    pub win_sequence_used: bool,
    pub win_sequence_handled: bool,
    pub win_sequence_replayed: bool,
    pub pending_win_key: u32,
    pub raw_win_sequence_used: bool,
    pub raw_win_sequence_handled: bool,
}

pub open spec fn no_post(decision: KeyDecision) -> KeyOutcome {
    KeyOutcome { decision, post: None, release_win: None }
}

impl InputState {
    pub open spec fn spec_current_shortcut(self) -> GlobalStartShortcut {
        if self.shortcut_mode == 1 {
            GlobalStartShortcut::Win
        } else {
            GlobalStartShortcut::WinShift
        }
    }

    /// The state with the per-sequence shortcut flags cleared.
    pub open spec fn spec_shortcut_reset(self) -> InputState {
        InputState {
            win_sequence_used: false,
            win_sequence_handled: false,
            win_sequence_replayed: false,
            pending_win_key: 0,
            raw_win_sequence_used: false,
            raw_win_sequence_handled: false,
            ..self
        }
    }

    /// The state with every observed key and timestamp cleared.
    pub open spec fn spec_input_reset(self) -> InputState {
        InputState {
            modifier_state: 0,
            raw_modifier_state: 0,
            last_toggle_event_time: 0,
            last_native_start_event_time: 0,
            native_start_reopen_block_time: 0,
            escape_captured: false,
            ..self.spec_shortcut_reset()
        }
    }

    /// Claims a toggle at `event_time`: the state remembers the time, and the
    /// answer says whether the toggle counts.
    pub open spec fn spec_claim_toggle(self, event_time: u32) -> (InputState, bool) {
        (
            InputState { last_toggle_event_time: event_time, ..self },
            toggle_claim_ok(self.last_toggle_event_time, event_time),
        )
    }

    /// The toggle message if a claim at `event_time` counts.
    pub open spec fn claimed_toggle(self, event_time: u32) -> Option<GlobalInputAction> {
        if toggle_claim_ok(self.last_toggle_event_time, event_time) {
            Some(GlobalInputAction::Toggle)
        } else {
            None
        }
    }

    /// Win-only mode: the state after a key event and what becomes of the event.
    pub open spec fn spec_win_shortcut(
        self,
        key: u16,
        previous: u8,
        current: u8,
        win_key: bool,
        key_down: bool,
        event_time: u32,
    ) -> (InputState, KeyOutcome) {
        if win_key {
            if key_down {
                if previous & WIN_DOWN == 0 {
                    let started = InputState {
                        win_sequence_used: false,
                        win_sequence_replayed: false,
                        pending_win_key: key as u32,
                        ..self
                    };
                    if self.surface_visible {
                        (
                            InputState {
                                win_sequence_handled: true,
                                native_start_reopen_block_time: event_time,
                                last_toggle_event_time: event_time,
                                ..started
                            },
                            KeyOutcome {
                                decision: KeyDecision::Swallow,
                                post: self.claimed_toggle(event_time),
                                release_win: None,
                            },
                        )
                    } else {
                        (
                            InputState { win_sequence_handled: false, ..started },
                            no_post(KeyDecision::Swallow),
                        )
                    }
                } else {
                    (self, no_post(KeyDecision::Swallow))
                }
            } else if current & WIN_DOWN != 0 {
                (self, no_post(KeyDecision::Swallow))
            } else {
                let pending = self.pending_win_key as u16;
                let cleared = InputState {
                    win_sequence_used: false,
                    win_sequence_handled: false,
                    win_sequence_replayed: false,
                    pending_win_key: 0,
                    ..self
                };
                let release_win = if self.win_sequence_replayed && pending != 0 {
                    Some(pending)
                } else {
                    None
                };
                if !self.win_sequence_used && !self.win_sequence_handled
                    && !self.win_sequence_replayed {
                    (
                        InputState { last_toggle_event_time: event_time, ..cleared },
                        KeyOutcome {
                            decision: KeyDecision::Swallow,
                            post: self.claimed_toggle(event_time),
                            release_win,
                        },
                    )
                } else {
                    (
                        cleared,
                        KeyOutcome { decision: KeyDecision::Swallow, post: None, release_win },
                    )
                }
            }
        } else if key_down && previous & WIN_DOWN != 0 {
            let used = InputState { win_sequence_used: true, ..self };
            let pending = self.pending_win_key as u16;
            if !self.win_sequence_replayed && pending != 0 {
                (used, no_post(KeyDecision::Replay { win_key: pending, key }))
            } else {
                (used, no_post(KeyDecision::Pass))
            }
        } else {
            (self, no_post(KeyDecision::Pass))
        }
    }

    /// Win+Shift mode: the state after a key event and what becomes of the event,
    /// given the modifier state before and after it.
    pub open spec fn spec_win_shift_shortcut(
        self,
        modifier: u8,
        previous: u8,
        current: u8,
        key_down: bool,
        event_time: u32,
    ) -> (InputState, KeyOutcome) {
        let win_key = modifier & WIN_DOWN != 0;
        let s1 = if key_down && win_key && previous & WIN_DOWN == 0 {
            InputState { win_sequence_used: false, win_sequence_handled: false, ..self }
        } else {
            self
        };
        let s2 = if key_down && !win_key && previous & WIN_DOWN != 0 && modifier & SHIFT_DOWN
            == 0 {
            InputState { win_sequence_used: true, ..s1 }
        } else {
            s1
        };
        let chord = !spec_chord_complete(previous) && spec_chord_complete(current);
        let s3 = if chord {
            InputState { win_sequence_handled: true, last_toggle_event_time: event_time, ..s2 }
        } else {
            s2
        };
        let toggle = if chord {
            s2.claimed_toggle(event_time)
        } else {
            None
        };
        if !key_down && win_key && current & WIN_DOWN == 0 {
            let dismiss = !s3.win_sequence_handled && !s3.win_sequence_used
                && s3.surface_visible;
            (
                InputState { win_sequence_used: false, win_sequence_handled: false, ..s3 },
                KeyOutcome {
                    decision: KeyDecision::Pass,
                    post: if dismiss {
                        Some(GlobalInputAction::Dismiss)
                    } else {
                        toggle
                    },
                    release_win: None,
                },
            )
        } else {
            (s3, KeyOutcome { decision: KeyDecision::Pass, post: toggle, release_win: None })
        }
    }

    /// Raw input: the state after a key event and the action for the surface.
    pub open spec fn spec_raw_shortcut(
        self,
        modifier: u8,
        previous: u8,
        current: u8,
        key_down: bool,
        event_time: u32,
    ) -> (InputState, Option<GlobalInputAction>) {
        let shortcut = self.spec_current_shortcut();
        if shortcut == GlobalStartShortcut::Win {
            (self, None)
        } else {
            let win_key = modifier & WIN_DOWN != 0;
            let s1 = if key_down && win_key && previous & WIN_DOWN == 0 {
                InputState { raw_win_sequence_used: false, raw_win_sequence_handled: false, ..self }
            } else {
                self
            };
            let s2 = if key_down && !win_key && previous & WIN_DOWN != 0 && !(modifier
                & SHIFT_DOWN != 0) {
                InputState { raw_win_sequence_used: true, ..s1 }
            } else {
                s1
            };
            if !spec_chord_complete(previous) && spec_chord_complete(current) {
                let s3 = InputState {
                    raw_win_sequence_handled: true,
                    last_toggle_event_time: event_time,
                    ..s2
                };
                if toggle_claim_ok(s2.last_toggle_event_time, event_time) {
                    (s3, Some(GlobalInputAction::Toggle))
                } else if !key_down && win_key && current & WIN_DOWN == 0 {
                    (
                        InputState {
                            raw_win_sequence_used: false,
                            raw_win_sequence_handled: false,
                            ..s3
                        },
                        None,
                    )
                } else {
                    (s3, None)
                }
            } else if !key_down && win_key && current & WIN_DOWN == 0 {
                let dismiss = !s2.raw_win_sequence_handled && !s2.raw_win_sequence_used
                    && s2.surface_visible;
                (
                    InputState {
                        raw_win_sequence_used: false,
                        raw_win_sequence_handled: false,
                        ..s2
                    },
                    if dismiss {
                        Some(GlobalInputAction::Dismiss)
                    } else {
                        None
                    },
                )
            } else {
                (s2, None)
            }
        }
    }

    /// A key event of the low-level hook: the modifier state is updated, then the
    /// current shortcut mode decides.
    pub open spec fn spec_shortcut_event(self, key: u16, scan_code: u32, key_down: bool, event_time: u32) -> (InputState, KeyOutcome) {
        let modifier = spec_modifier_mask(key, scan_code);
        let previous = self.modifier_state;
        let current = next_modifiers(previous, modifier, key_down);
        let observed = InputState { modifier_state: current, ..self };
        if self.spec_current_shortcut() == GlobalStartShortcut::Win {
            observed.spec_win_shortcut(key, previous, current, modifier & WIN_DOWN != 0, key_down, event_time)
        } else {
            observed.spec_win_shift_shortcut(modifier, previous, current, key_down, event_time)
        }
    }

    /// Escape: the state after a press or release and what becomes of it.
    pub open spec fn spec_escape(self, key_down: bool, key_up: bool) -> (InputState, EscapeOutcome) {
        if key_down && self.surface_visible {
            (
                InputState { escape_captured: true, ..self },
                EscapeOutcome { swallow: true, post_dismiss: !self.escape_captured },
            )
        } else if key_up {
            (
                InputState { escape_captured: false, ..self },
                EscapeOutcome { swallow: self.escape_captured, post_dismiss: false },
            )
        } else {
            (self, EscapeOutcome { swallow: false, post_dismiss: false })
        }
    }

    /// The state before any binding: nothing held, nothing visible, Win+Shift mode.
    pub fn new() -> (r: InputState)
        ensures
            r == (InputState {
                surface_visible: false,
                modifier_state: 0,
                raw_modifier_state: 0,
                last_toggle_event_time: 0,
                last_native_start_event_time: 0,
                native_start_reopen_block_time: 0,
                escape_captured: false,
                shortcut_mode: 0,
                win_sequence_used: false,
                win_sequence_handled: false,
                win_sequence_replayed: false,
                pending_win_key: 0,
                raw_win_sequence_used: false,
                raw_win_sequence_handled: false,
            }),
    {
        InputState {
            surface_visible: false,
            modifier_state: 0,
            raw_modifier_state: 0,
            last_toggle_event_time: 0,
            last_native_start_event_time: 0,
            native_start_reopen_block_time: 0,
            escape_captured: false,
            shortcut_mode: 0,
            win_sequence_used: false,
            win_sequence_handled: false,
            win_sequence_replayed: false,
            pending_win_key: 0,
            raw_win_sequence_used: false,
            raw_win_sequence_handled: false,
        }
    }

    /// Selects the shortcut mode and forgets any sequence in progress.
    pub fn set_shortcut(&mut self, shortcut: GlobalStartShortcut)
        ensures
            *final(self) == (InputState {
                shortcut_mode: spec_shortcut_code(shortcut),
                ..old(self).spec_shortcut_reset()
            }),
    {
        self.shortcut_mode = shortcut_code(shortcut);
        self.reset_shortcut_state();
    }

    /// Records whether the Start surface is on screen.
    pub fn set_surface_visible(&mut self, visible: bool)
        ensures
            *final(self) == (InputState { surface_visible: visible, ..*old(self) }),
    {
        self.surface_visible = visible;
    }

    pub fn current_shortcut(&self) -> (r: GlobalStartShortcut)
        ensures
            r == self.spec_current_shortcut(),
    {
        if self.shortcut_mode == 1 {
            GlobalStartShortcut::Win
        } else {
            GlobalStartShortcut::WinShift
        }
    }

    /// Forgets held keys, timestamps and any sequence in progress.
    pub fn reset_input_state(&mut self)
        ensures
            *final(self) == old(self).spec_input_reset(),
    {
        self.modifier_state = 0;
        self.raw_modifier_state = 0;
        self.last_toggle_event_time = 0;
        self.last_native_start_event_time = 0;
        self.native_start_reopen_block_time = 0;
        self.escape_captured = false;
        self.reset_shortcut_state();
    }

    /// Forgets any shortcut sequence in progress.
    pub fn reset_shortcut_state(&mut self)
        ensures
            *final(self) == old(self).spec_shortcut_reset(),
    {
        self.win_sequence_used = false;
        self.win_sequence_handled = false;
        self.win_sequence_replayed = false;
        self.pending_win_key = 0;
        self.raw_win_sequence_used = false;
        self.raw_win_sequence_handled = false;
    }

    /// Remembers `event_time` as the last toggle and says whether a toggle at that
    /// time counts.
    pub fn claim_toggle_event(&mut self, event_time: u32) -> (r: bool)
        ensures
            (*final(self), r) == old(self).spec_claim_toggle(event_time),
    {
        let previous = self.last_toggle_event_time;
        self.last_toggle_event_time = event_time;
        previous == 0 || (event_time.wrapping_sub(previous) > TOGGLE_EVENT_GAP_MS
            && previous.wrapping_sub(event_time) > TOGGLE_EVENT_GAP_MS)
    }

    /// Remembers `event_time` as the last native Start event and says whether it
    /// counts.
    pub fn claim_native_start_event(&mut self, event_time: u32) -> (r: bool)
        ensures
            *final(self) == (InputState { last_native_start_event_time: event_time, ..*old(self) }),
            r == native_start_claim_ok(old(self).last_native_start_event_time, event_time),
    {
        let previous = self.last_native_start_event_time;
        self.last_native_start_event_time = event_time;
        previous == 0 || event_time.wrapping_sub(previous) > NATIVE_START_EVENT_GAP_MS
    }

    /// Whether the surface must not reopen: it was closed with the Win key at most
    /// 900 ms before `event_time`.
    pub fn native_start_reopen_blocked(&self, event_time: u32) -> (r: bool)
        ensures
            r == (self.native_start_reopen_block_time != 0 && elapsed_ms(
                event_time,
                self.native_start_reopen_block_time,
            ) <= NATIVE_START_BLOCK_MS),
    {
        let blocked_at = self.native_start_reopen_block_time;
        blocked_at != 0 && event_time.wrapping_sub(blocked_at) <= NATIVE_START_BLOCK_MS
    }

    /// Escape dismisses the visible surface once per press and is kept from other
    /// applications until released.
    pub fn handle_escape(&mut self, key_down: bool, key_up: bool) -> (r: EscapeOutcome)
        ensures
            (*final(self), r) == old(self).spec_escape(key_down, key_up),
    {
        if key_down && self.surface_visible {
            let was_captured = self.escape_captured;
            self.escape_captured = true;
            return EscapeOutcome { swallow: true, post_dismiss: !was_captured };
        }
        if key_up {
            let was_captured = self.escape_captured;
            self.escape_captured = false;
            if was_captured {
                return EscapeOutcome { swallow: true, post_dismiss: false };
            }
        }
        EscapeOutcome { swallow: false, post_dismiss: false }
    }

    /// A key event seen by the low-level hook: tracks the modifiers and applies the
    /// current shortcut mode.
    #[verifier::rlimit(60)]
    pub fn handle_shortcut_event(&mut self, key: u16, scan_code: u32, key_down: bool, event_time: u32) -> (r: KeyOutcome)
        ensures
            (*final(self), r) == old(self).spec_shortcut_event(key, scan_code, key_down, event_time),
    {
        let modifier = modifier_mask(key as u32, scan_code);
        let previous = self.modifier_state;
        let current = if key_down {
            previous | modifier
        } else {
            previous & !modifier
        };
        self.modifier_state = current;
        let win_key = modifier & WIN_DOWN != 0;
        let shortcut = self.current_shortcut();
        if shortcut == GlobalStartShortcut::Win {
            return self.handle_win_shortcut_event(key, previous, current, win_key, key_down, event_time);
        }
        if key_down && win_key && previous & WIN_DOWN == 0 {
            self.win_sequence_used = false;
            self.win_sequence_handled = false;
        }
        if key_down && !win_key && previous & WIN_DOWN != 0 && modifier & SHIFT_DOWN == 0 {
            self.win_sequence_used = true;
        }
        let mut post: Option<GlobalInputAction> = None;
        if !chord_complete(previous) && chord_complete(current) {
            self.win_sequence_handled = true;
            if self.claim_toggle_event(event_time) {
                post = Some(GlobalInputAction::Toggle);
            }
        }
        if !key_down && win_key && current & WIN_DOWN == 0 {
            let used = self.win_sequence_used;
            self.win_sequence_used = false;
            let handled = self.win_sequence_handled;
            self.win_sequence_handled = false;
            if !handled && !used && self.surface_visible {
                post = Some(GlobalInputAction::Dismiss);
            }
        }
        KeyOutcome { decision: KeyDecision::Pass, post, release_win: None }
    }

    /// A key event in Win-only mode, given the modifier state before and after it.
    /// Win key events are always kept from other applications: a Win tap toggles
    /// the surface, and a Win combination is replayed to the system.
    #[verifier::rlimit(60)]
    pub fn handle_win_shortcut_event(
        &mut self,
        key: u16,
        previous: u8,
        current: u8,
        win_key: bool,
        key_down: bool,
        event_time: u32,
    ) -> (r: KeyOutcome)
        ensures
            (*final(self), r) == old(self).spec_win_shortcut(
                key,
                previous,
                current,
                win_key,
                key_down,
                event_time,
            ),
    {
        if win_key {
            if key_down {
                if previous & WIN_DOWN == 0 {
                    self.win_sequence_used = false;
                    self.win_sequence_replayed = false;
                    self.pending_win_key = key as u32;
                    if self.surface_visible {
                        self.win_sequence_handled = true;
                        self.native_start_reopen_block_time = event_time;
                        let post = if self.claim_toggle_event(event_time) {
                            Some(GlobalInputAction::Toggle)
                        } else {
                            None
                        };
                        return KeyOutcome { decision: KeyDecision::Swallow, post, release_win: None };
                    } else {
                        self.win_sequence_handled = false;
                    }
                }
                return KeyOutcome { decision: KeyDecision::Swallow, post: None, release_win: None };
            }
            if current & WIN_DOWN != 0 {
                return KeyOutcome { decision: KeyDecision::Swallow, post: None, release_win: None };
            }
            let used = self.win_sequence_used;
            self.win_sequence_used = false;
            let handled = self.win_sequence_handled;
            self.win_sequence_handled = false;
            let replayed = self.win_sequence_replayed;
            self.win_sequence_replayed = false;
            let pending_win_key = self.pending_win_key as u16;
            self.pending_win_key = 0;
            let release_win = if replayed && pending_win_key != 0 {
                Some(pending_win_key)
            } else {
                None
            };
            let mut post: Option<GlobalInputAction> = None;
            if !used && !handled && !replayed {
                if self.claim_toggle_event(event_time) {
                    post = Some(GlobalInputAction::Toggle);
                }
            }
            return KeyOutcome { decision: KeyDecision::Swallow, post, release_win };
        }
        if key_down && previous & WIN_DOWN != 0 {
            self.win_sequence_used = true;
            if !self.win_sequence_replayed {
                let win_key = self.pending_win_key as u16;
                if win_key != 0 {
                    return KeyOutcome {
                        decision: KeyDecision::Replay { win_key, key },
                        post: None,
                        release_win: None,
                    };
                }
            }
        }
        KeyOutcome { decision: KeyDecision::Pass, post: None, release_win: None }
    }

    /// Reports whether the replay of a Win combination went through. A replayed
    /// combination is swallowed; a failed one is handed on.
    pub fn finish_win_replay(&mut self, replayed: bool) -> (r: bool)
        ensures
            r == replayed,
            *final(self) == if replayed {
                InputState { win_sequence_replayed: true, ..*old(self) }
            } else {
                *old(self)
            },
    {
        if replayed {
            self.win_sequence_replayed = true;
        }
        replayed
    }

    /// A key event seen through raw input, given the modifier state before and
    /// after it.
    #[verifier::rlimit(60)]
    pub fn handle_raw_shortcut_event(
        &mut self,
        key: u16,
        modifier: u8,
        previous: u8,
        current: u8,
        key_down: bool,
        event_time: u32,
    ) -> (r: Option<GlobalInputAction>)
        ensures
            (*final(self), r) == old(self).spec_raw_shortcut(
                modifier,
                previous,
                current,
                key_down,
                event_time,
            ),
    {
        if self.current_shortcut() == GlobalStartShortcut::Win {
            return None;
        }
        let win_key = modifier & WIN_DOWN != 0;
        if key_down && win_key && previous & WIN_DOWN == 0 {
            self.raw_win_sequence_used = false;
            self.raw_win_sequence_handled = false;
        }
        let shortcut = self.current_shortcut();
        if key_down && !win_key && previous & WIN_DOWN != 0 && !(shortcut
            == GlobalStartShortcut::WinShift && modifier & SHIFT_DOWN != 0) {
            self.raw_win_sequence_used = true;
        }
        if shortcut == GlobalStartShortcut::WinShift && !chord_complete(previous) && chord_complete(
            current,
        ) {
            self.raw_win_sequence_handled = true;
            if self.claim_toggle_event(event_time) {
                return Some(GlobalInputAction::Toggle);
            }
        }
        if !key_down && win_key && current & WIN_DOWN == 0 {
            let used = self.raw_win_sequence_used;
            self.raw_win_sequence_used = false;
            let handled = self.raw_win_sequence_handled;
            self.raw_win_sequence_handled = false;
            return if !handled && !used && self.surface_visible {
                Some(GlobalInputAction::Dismiss)
            } else {
                None
            };
        }
        None
    }

    /// A raw keyboard event for the bound window: Escape dismisses the visible
    /// surface; otherwise the raw modifier state is observed and the shortcut
    /// applied.
    pub fn raw_input_action(&mut self, vkey: u16, make_code: u16, key_down: bool, event_time: u32) -> (r: Option<GlobalInputAction>)
        ensures
            vkey == VK_ESCAPE && key_down && old(self).surface_visible ==> *final(self) == *old(self)
                && r == Some(GlobalInputAction::Dismiss),
            !(vkey == VK_ESCAPE && key_down && old(self).surface_visible) ==> ({
                let modifier = spec_modifier_mask(vkey, make_code as u32);
                let previous = old(self).raw_modifier_state;
                let current = next_modifiers(previous, modifier, key_down);
                (*final(self), r) == (InputState {
                    raw_modifier_state: current,
                    ..*old(self)
                }).spec_raw_shortcut(modifier, previous, current, key_down, event_time)
            }),
    {
        if vkey == VK_ESCAPE && key_down && self.surface_visible {
            return Some(GlobalInputAction::Dismiss);
        }
        let modifier = raw_modifier_mask(vkey, make_code);
        let previous = self.raw_modifier_state;
        let current = if key_down {
            previous | modifier
        } else {
            previous & !modifier
        };
        self.raw_modifier_state = current;
        self.handle_raw_shortcut_event(vkey, modifier, previous, current, key_down, event_time)
    }

    /// The native Start menu took the foreground at `event_time`. It is closed
    /// whenever the event counts; the surface opens instead unless it is already
    /// visible or was just closed with the Win key.
    pub fn native_start_event(&mut self, event_time: u32) -> (r: NativeStartOutcome)
        ensures
            *final(self) == (InputState { last_native_start_event_time: event_time, ..*old(self) }),
            r.dismiss_native == native_start_claim_ok(old(self).last_native_start_event_time, event_time),
            r.post_toggle == (r.dismiss_native && !old(self).surface_visible && !(
            old(self).native_start_reopen_block_time != 0 && elapsed_ms(
                event_time,
                old(self).native_start_reopen_block_time,
            ) <= NATIVE_START_BLOCK_MS)),
    {
        if !self.claim_native_start_event(event_time) {
            return NativeStartOutcome { dismiss_native: false, post_toggle: false };
        }
        if self.surface_visible {
            return NativeStartOutcome { dismiss_native: true, post_toggle: false };
        }
        if self.native_start_reopen_blocked(event_time) {
            return NativeStartOutcome { dismiss_native: true, post_toggle: false };
        }
        NativeStartOutcome { dismiss_native: true, post_toggle: true }
    }
}

proof fn lemma_win_bits(m: u8)
    requires
        m & WIN_DOWN == 0,
    ensures
        (m | LEFT_WIN_DOWN) & WIN_DOWN != 0,
        ((m | LEFT_WIN_DOWN) & !LEFT_WIN_DOWN) & WIN_DOWN == 0,
        LEFT_WIN_DOWN & WIN_DOWN != 0,
        LEFT_WIN_DOWN & SHIFT_DOWN == 0,
{
    assert((m | 4u8) & 12u8 != 0) by (bit_vector)
        requires m & 12u8 == 0;
    assert(((m | 4u8) & !4u8) & 12u8 == 0) by (bit_vector)
        requires m & 12u8 == 0;
    assert(4u8 & 12u8 != 0) by (bit_vector);
    assert(4u8 & 3u8 == 0) by (bit_vector);
}

/// Once a toggle has been claimed at a nonzero time, another claim within 250 ms
/// of it does not count.
pub proof fn lemma_toggle_debounce(s: InputState, first: u32, second: u32)
    requires
        first != 0,
        elapsed_ms(second, first) <= TOGGLE_EVENT_GAP_MS,
    ensures
        s.spec_claim_toggle(first).0.spec_claim_toggle(second).1 == false,
{
}

/// In Win-only mode a tap of the Win key (press, then release with nothing in
/// between) toggles the hidden surface, and neither key event reaches other
/// applications.
pub proof fn lemma_win_tap_toggles(s: InputState, press_time: u32, release_time: u32)
    requires
        s.spec_current_shortcut() == GlobalStartShortcut::Win,
        s.modifier_state & WIN_DOWN == 0,
        !s.surface_visible,
        toggle_claim_ok(s.last_toggle_event_time, release_time),
    ensures
        ({
            let (s1, pressed) = s.spec_shortcut_event(VK_LWIN, 0, true, press_time);
            let (s2, released) = s1.spec_shortcut_event(VK_LWIN, 0, false, release_time);
            &&& pressed.decision == KeyDecision::Swallow
            &&& pressed.post is None
            &&& released.decision == KeyDecision::Swallow
            &&& released.post == Some(GlobalInputAction::Toggle)
            &&& s2.modifier_state & WIN_DOWN == 0
        }),
{
    lemma_win_bits(s.modifier_state);
}

/// In Win-only mode a key pressed while the Win key is held is replayed together
/// with that Win key, and the release of the Win key then toggles nothing.
pub proof fn lemma_win_combination_replays(s: InputState, key: u16, press_time: u32, key_time: u32)
    requires
        s.spec_current_shortcut() == GlobalStartShortcut::Win,
        s.modifier_state & WIN_DOWN == 0,
        !s.surface_visible,
        spec_modifier_mask(key, 0) == 0,
    ensures
        ({
            let (s1, pressed) = s.spec_shortcut_event(VK_LWIN, 0, true, press_time);
            let (s2, combined) = s1.spec_shortcut_event(key, 0, true, key_time);
            &&& combined.decision == KeyDecision::Replay { win_key: VK_LWIN, key }
            &&& s2.win_sequence_used
        }),
{
    lemma_win_bits(s.modifier_state);
    let (s1, pressed) = s.spec_shortcut_event(VK_LWIN, 0, true, press_time);
    assert(s1.modifier_state == s.modifier_state | LEFT_WIN_DOWN);
    let m = s1.modifier_state;
    assert(m & 0u8 == 0u8 && (m | 0u8) == m) by (bit_vector);
    assert(s1.pending_win_key == 0x5Bu32);
    assert((0x5Bu32 as u16) == 0x5Bu16) by (bit_vector);
    assert(m & WIN_DOWN != 0);
    assert(!s1.win_sequence_replayed);
    assert(0u8 & 12u8 == 0u8) by (bit_vector);
    assert(spec_modifier_mask(key, 0) & WIN_DOWN == 0);
    assert(next_modifiers(m, 0, true) == m);
}

/// In Win+Shift mode, holding Win and then pressing Shift asks the surface to
/// toggle; the key events still reach other applications.
pub proof fn lemma_win_shift_chord_toggles(s: InputState, win_time: u32, shift_time: u32)
    requires
        s.spec_current_shortcut() == GlobalStartShortcut::WinShift,
        s.modifier_state == 0,
        toggle_claim_ok(s.last_toggle_event_time, shift_time),
    ensures
        ({
            let (s1, win) = s.spec_shortcut_event(VK_LWIN, 0, true, win_time);
            let (s2, shift) = s1.spec_shortcut_event(VK_LSHIFT, 0, true, shift_time);
            &&& win.decision == KeyDecision::Pass
            &&& win.post is None
            &&& shift.decision == KeyDecision::Pass
            &&& shift.post == Some(GlobalInputAction::Toggle)
            &&& s2.win_sequence_handled
        }),
{
    assert(0u8 | 4u8 == 4u8) by (bit_vector);
    assert(4u8 | 1u8 == 5u8) by (bit_vector);
    assert(4u8 & 12u8 != 0 && 4u8 & 3u8 == 0 && 0u8 & 12u8 == 0 && 0u8 & 3u8 == 0) by (bit_vector);
    assert(1u8 & 12u8 == 0 && 1u8 & 3u8 != 0) by (bit_vector);
    assert(5u8 & 3u8 != 0 && 5u8 & 12u8 != 0) by (bit_vector);
}

/// Each shift key sets a shift bit and no Win bit, each Win key a Win bit and no
/// shift bit, the left and right keys of a pair set different bits (so letting
/// go of one leaves the other held), the generic shift key reads as the left or
/// right one by its scan code, and no other key is a modifier.
pub proof fn lemma_modifier_keys(key: u16, scan_code: u32)
    ensures
        (key == VK_SHIFT || key == VK_LSHIFT || key == VK_RSHIFT) ==> spec_modifier_mask(key, scan_code) & SHIFT_DOWN
            != 0 && spec_modifier_mask(key, scan_code) & WIN_DOWN == 0,
        (key == VK_LWIN || key == VK_RWIN) ==> spec_modifier_mask(key, scan_code) & WIN_DOWN != 0
            && spec_modifier_mask(key, scan_code) & SHIFT_DOWN == 0,
        !(key == VK_SHIFT || key == VK_LSHIFT || key == VK_RSHIFT || key == VK_LWIN || key == VK_RWIN)
            ==> spec_modifier_mask(key, scan_code) == 0,
        spec_modifier_mask(VK_LSHIFT, scan_code) & spec_modifier_mask(VK_RSHIFT, scan_code) == 0,
        spec_modifier_mask(VK_LWIN, scan_code) & spec_modifier_mask(VK_RWIN, scan_code) == 0,
        spec_modifier_mask(VK_SHIFT, RIGHT_SHIFT_SCAN_CODE) == spec_modifier_mask(VK_RSHIFT, scan_code),
        scan_code != RIGHT_SHIFT_SCAN_CODE ==> spec_modifier_mask(VK_SHIFT, scan_code) == spec_modifier_mask(
            VK_LSHIFT,
            scan_code,
        ),
{
    assert(1u8 & 3u8 != 0 && 1u8 & 12u8 == 0 && 2u8 & 3u8 != 0 && 2u8 & 12u8 == 0) by (bit_vector);
    assert(4u8 & 12u8 != 0 && 4u8 & 3u8 == 0 && 8u8 & 12u8 != 0 && 8u8 & 3u8 == 0) by (bit_vector);
    assert(1u8 & 2u8 == 0 && 4u8 & 8u8 == 0) by (bit_vector);
}

/// In Win+Shift mode, holding Win and then pressing either shift key, left or
/// right, asks the surface to toggle; the key events still reach other
/// applications.
pub proof fn lemma_win_then_either_shift_toggles(s: InputState, shift_key: u16, win_time: u32, shift_time: u32)
    requires
        s.spec_current_shortcut() == GlobalStartShortcut::WinShift,
        s.modifier_state == 0,
        shift_key == VK_LSHIFT || shift_key == VK_RSHIFT || shift_key == VK_SHIFT,
        toggle_claim_ok(s.last_toggle_event_time, shift_time),
    ensures
        ({
            let (s1, win) = s.spec_shortcut_event(VK_LWIN, 0, true, win_time);
            let (s2, shift) = s1.spec_shortcut_event(shift_key, 0, true, shift_time);
            &&& win.decision == KeyDecision::Pass
            &&& win.post is None
            &&& shift.decision == KeyDecision::Pass
            &&& shift.post == Some(GlobalInputAction::Toggle)
            &&& s2.win_sequence_handled
        }),
{
    assert(0u8 | 4u8 == 4u8) by (bit_vector);
    assert(4u8 | 1u8 == 5u8 && 4u8 | 2u8 == 6u8) by (bit_vector);
    assert(4u8 & 12u8 != 0 && 4u8 & 3u8 == 0 && 0u8 & 12u8 == 0 && 0u8 & 3u8 == 0) by (bit_vector);
    assert(1u8 & 12u8 == 0 && 1u8 & 3u8 != 0 && 2u8 & 12u8 == 0 && 2u8 & 3u8 != 0) by (bit_vector);
    assert(5u8 & 3u8 != 0 && 5u8 & 12u8 != 0 && 6u8 & 3u8 != 0 && 6u8 & 12u8 != 0) by (bit_vector);
}

/// While the surface is visible, holding Escape dismisses it once however often
/// the press repeats, and the presses and the release are all kept from other
/// applications.
pub proof fn lemma_escape_dismisses_once(s: InputState)
    requires
        s.surface_visible,
        !s.escape_captured,
    ensures
        ({
            let (s1, first) = s.spec_escape(true, false);
            let (s2, repeated) = s1.spec_escape(true, false);
            let (s3, released) = s2.spec_escape(false, true);
            &&& first == (EscapeOutcome { swallow: true, post_dismiss: true })
            &&& repeated == (EscapeOutcome { swallow: true, post_dismiss: false })
            &&& released == (EscapeOutcome { swallow: true, post_dismiss: false })
            &&& !s3.escape_captured
        }),
{
}

} // verus!
