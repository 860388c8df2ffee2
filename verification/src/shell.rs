//! The decisions of the bridge that runs inside Explorer: which messages and
//! clicks it takes over, when a click on the Start button is routed to the
//! Start menu and for how long the native handler is suppressed after it, and
//! where the Start button is when only the task list can be found.

use crate::geometry::Rect;
use crate::injector::{spec_is_hooked_class, text_equals};
use vstd::prelude::*;

verus! {

/// The bytes that begin the click handler of the taskbar's Start button;
/// `0xCC` stands for any byte.
pub open spec fn start_click_pattern() -> Seq<u8> {
    seq![
        0x48u8, 0x89, 0x5C, 0x24, 0x08, 0x48, 0x89, 0x74, 0x24, 0x18, 0x55, 0x57, 0x41, 0x56, 0x48, 0x8B,
        0xEC, 0x48, 0x81, 0xEC, 0xCC, 0xCC, 0xCC, 0xCC, 0x48, 0x8B, 0x05, 0xCC, 0xCC, 0xCC, 0xCC, 0x48,
        0x33, 0xC4, 0x48, 0x89, 0x45, 0xF0, 0x48, 0x8B, 0xDA, 0x48, 0x8D, 0x55, 0xE0, 0x48, 0x8B, 0xCB,
    ]
}

/// The byte that stands for any byte in the pattern.
pub const WILDCARD: u8 = 0xCC;

fn start_click_pattern_bytes() -> (r: [u8; 48])
    ensures
        r@ == start_click_pattern(),
{
    let r: [u8; 48] = [
        0x48, 0x89, 0x5C, 0x24, 0x08, 0x48, 0x89, 0x74, 0x24, 0x18, 0x55, 0x57, 0x41, 0x56, 0x48, 0x8B,
        0xEC, 0x48, 0x81, 0xEC, 0xCC, 0xCC, 0xCC, 0xCC, 0x48, 0x8B, 0x05, 0xCC, 0xCC, 0xCC, 0xCC, 0x48,
        0x33, 0xC4, 0x48, 0x89, 0x45, 0xF0, 0x48, 0x8B, 0xDA, 0x48, 0x8D, 0x55, 0xE0, 0x48, 0x8B, 0xCB,
    ];
    assert(r@ =~= start_click_pattern());
    r
}

/// `bytes` agrees with the pattern wherever both have a byte and the pattern
/// has no wildcard.
pub open spec fn spec_pattern_matches(bytes: Seq<u8>) -> bool {
    forall|i: int|
        0 <= i < bytes.len() && i < start_click_pattern().len() ==> start_click_pattern()[i] == WILDCARD
            || #[trigger] bytes[i] == start_click_pattern()[i]
}

/// Whether `bytes` begins like the Start button's click handler.
pub fn pattern_matches(bytes: &[u8]) -> (r: bool)
    ensures
        r == spec_pattern_matches(bytes@),
{
    let pattern = start_click_pattern_bytes();
    let mut index: usize = 0;
    while index < bytes.len() && index < 48
        invariant
            pattern@ == start_click_pattern(),
            0 <= index <= 48,
            index <= bytes@.len(),
            forall|i: int| 0 <= i < index ==> pattern@[i] == WILDCARD || #[trigger] bytes@[i] == pattern@[i],
        decreases 48 - index,
    {
        let expected = pattern[index];
        if expected != WILDCARD && bytes[index] != expected {
            return false;
        }
        index += 1;
    }
    true
}

#[verifier::external_type_specification]
#[verifier::external_body]
pub struct ExInstant(std::time::Instant);

/// Calls `std::time::Instant::elapsed`: the time since `start`. It depends on
/// the clock, so nothing is stated of it.
#[verifier::external_body]
fn elapsed_since(start: &std::time::Instant) -> std::time::Duration {
    start.elapsed()
}

/// Calls `std::time::Duration::as_millis`: the whole milliseconds of
/// `duration`. The duration is opaque here, so nothing is stated of the count.
#[verifier::external_body]
fn duration_millis(duration: &std::time::Duration) -> u128 {
    duration.as_millis()
}

/// A millisecond count held to what a `u64` holds.
pub fn clock_millis(elapsed: u128) -> (r: u64)
    ensures
        r == (if elapsed <= u64::MAX { elapsed as int } else { u64::MAX as int }),
{
    if elapsed <= u64::MAX as u128 {
        elapsed as u64
    } else {
        u64::MAX
    }
}

/// The milliseconds since `start`, the moment the pointer clock started.
pub fn pointer_clock_ms(start: &std::time::Instant) -> (r: u64) {
    let elapsed = elapsed_since(start);
    clock_millis(duration_millis(&elapsed))
}

/// How long after a routed click the native handler is suppressed.
pub const START_CLICK_SUPPRESSION_WINDOW_MS: u64 = 500;

/// What the click handler of the Start button does with a click.
#[derive(Clone, Copy, Debug, PartialEq, Eq, Structural)]
pub enum ClickStep {
    /// Take the button from the click, without showing the native menu.
    CaptureButton,
    /// A routed click set a deadline: compare the clock against it.
    CheckDeadline(u64),
    /// Hand the click to the native handler.
    CallOriginal,
    /// The native handler is gone: drop the click.
    Drop,
}

/// What the bridge asks for after the experience visibility changed.
#[derive(Clone, Copy, Debug, PartialEq, Eq, Structural)]
pub enum ExperienceStep {
    /// Tell the captured button.
    UpdateButton(bool),
    /// Start a bootstrap thread that toggles the button once to capture it.
    Bootstrap,
    Nothing,
}

/// The state the bridge keeps between hooked calls.
pub struct StartButtonState {
    pub pointer_pending: bool,
    pub suppression_deadline_ms: u64,
    pub experience_visible: bool,
    pub bootstrap_pending: bool,
    pub bootstrap_running: bool,
    pub handler_installed: bool,
    pub button_captured: bool,
}

impl StartButtonState {
    pub fn new() -> (r: Self)
        ensures
            !r.pointer_pending && r.suppression_deadline_ms == 0 && !r.experience_visible && !r.bootstrap_pending
                && !r.bootstrap_running && !r.handler_installed && !r.button_captured,
    {
        StartButtonState {
            pointer_pending: false,
            suppression_deadline_ms: 0,
            experience_visible: false,
            bootstrap_pending: false,
            bootstrap_running: false,
            handler_installed: false,
            button_captured: false,
        }
    }

    /// The button went down, on the Start button or not.
    pub fn note_pointer_down(&mut self, on_start_button: bool)
        ensures
            final(self).pointer_pending == on_start_button,
            final(self).suppression_deadline_ms == old(self).suppression_deadline_ms,
            final(self).experience_visible == old(self).experience_visible,
            final(self).bootstrap_pending == old(self).bootstrap_pending,
            final(self).bootstrap_running == old(self).bootstrap_running,
            final(self).handler_installed == old(self).handler_installed,
            final(self).button_captured == old(self).button_captured,
    {
        self.pointer_pending = on_start_button;
    }

    /// The button came up, on the Start button or not: the press is used up;
    /// `true` where both the press and the release were on the Start button, so
    /// the click should be routed to the Start menu.
    pub fn begin_pointer_up(&mut self, on_start_button: bool) -> (r: bool)
        ensures
            r == (old(self).pointer_pending && on_start_button),
            !final(self).pointer_pending,
            final(self).suppression_deadline_ms == old(self).suppression_deadline_ms,
            final(self).experience_visible == old(self).experience_visible,
            final(self).bootstrap_pending == old(self).bootstrap_pending,
            final(self).bootstrap_running == old(self).bootstrap_running,
            final(self).handler_installed == old(self).handler_installed,
            final(self).button_captured == old(self).button_captured,
    {
        let pressed = self.pointer_pending;
        self.pointer_pending = false;
        pressed && on_start_button
    }

    /// The routing of a click ended, at `now_ms`: where the Start menu took it,
    /// the native handler is suppressed for the next 500 ms. `true` where the
    /// click was handled.
    pub fn finish_pointer_up(&mut self, routed: bool, now_ms: u64) -> (r: bool)
        ensures
            r == routed,
            routed ==> final(self).suppression_deadline_ms == (if now_ms + START_CLICK_SUPPRESSION_WINDOW_MS
                <= u64::MAX {
                now_ms + START_CLICK_SUPPRESSION_WINDOW_MS
            } else {
                u64::MAX as int
            }),
            !routed ==> final(self).suppression_deadline_ms == old(self).suppression_deadline_ms,
            final(self).pointer_pending == old(self).pointer_pending,
            final(self).experience_visible == old(self).experience_visible,
            final(self).bootstrap_pending == old(self).bootstrap_pending,
            final(self).bootstrap_running == old(self).bootstrap_running,
            final(self).handler_installed == old(self).handler_installed,
            final(self).button_captured == old(self).button_captured,
    {
        if !routed {
            return false;
        }
        self.suppression_deadline_ms = now_ms.saturating_add(START_CLICK_SUPPRESSION_WINDOW_MS);
        true
    }

    /// The Start menu reported whether it is visible: remember it and tell the
    /// captured button; with no button captured yet, a visible menu outside the
    /// suppression of a routed click asks for the button to be captured.
    pub fn set_experience_visible(&mut self, visible: bool) -> (r: ExperienceStep)
        ensures
            final(self).experience_visible == visible,
            old(self).button_captured ==> r == ExperienceStep::UpdateButton(visible),
            !old(self).button_captured ==> r == (if visible && old(self).suppression_deadline_ms == 0 {
                ExperienceStep::Bootstrap
            } else {
                ExperienceStep::Nothing
            }),
            final(self).pointer_pending == old(self).pointer_pending,
            final(self).suppression_deadline_ms == old(self).suppression_deadline_ms,
            final(self).bootstrap_pending == old(self).bootstrap_pending,
            final(self).bootstrap_running == old(self).bootstrap_running,
            final(self).handler_installed == old(self).handler_installed,
            final(self).button_captured == old(self).button_captured,
    {
        self.experience_visible = visible;
        if self.button_captured {
            ExperienceStep::UpdateButton(visible)
        } else if visible && self.suppression_deadline_ms == 0 {
            ExperienceStep::Bootstrap
        } else {
            ExperienceStep::Nothing
        }
    }

    /// A capture of the button is requested: `true` where a bootstrap thread
    /// should start, which is so unless one is running already.
    pub fn request_bootstrap(&mut self) -> (r: bool)
        ensures
            r == !old(self).bootstrap_running,
            final(self).bootstrap_running,
            r ==> final(self).bootstrap_pending,
            !r ==> final(self).bootstrap_pending == old(self).bootstrap_pending,
            final(self).pointer_pending == old(self).pointer_pending,
            final(self).suppression_deadline_ms == old(self).suppression_deadline_ms,
            final(self).experience_visible == old(self).experience_visible,
            final(self).handler_installed == old(self).handler_installed,
            final(self).button_captured == old(self).button_captured,
    {
        if self.bootstrap_running {
            return false;
        }
        self.bootstrap_running = true;
        self.bootstrap_pending = true;
        true
    }

    /// The bootstrap thread ended.
    pub fn finish_bootstrap(&mut self)
        ensures
            !final(self).bootstrap_pending,
            !final(self).bootstrap_running,
            final(self).pointer_pending == old(self).pointer_pending,
            final(self).suppression_deadline_ms == old(self).suppression_deadline_ms,
            final(self).experience_visible == old(self).experience_visible,
            final(self).handler_installed == old(self).handler_installed,
            final(self).button_captured == old(self).button_captured,
    {
        self.bootstrap_pending = false;
        self.bootstrap_running = false;
    }

    /// The Start button was clicked: a pending bootstrap takes the button; a
    /// routed click's deadline is used up and checked against the clock;
    /// otherwise the native handler runs, where it is still installed.
    pub fn begin_click(&mut self) -> (r: ClickStep)
        ensures
            old(self).bootstrap_pending ==> r == ClickStep::CaptureButton && !final(self).bootstrap_pending
                && final(self).suppression_deadline_ms == old(self).suppression_deadline_ms,
            !old(self).bootstrap_pending ==> !final(self).bootstrap_pending && final(self).suppression_deadline_ms == 0
                && r == (if old(self).suppression_deadline_ms != 0 {
                ClickStep::CheckDeadline(old(self).suppression_deadline_ms)
            } else if old(self).handler_installed {
                ClickStep::CallOriginal
            } else {
                ClickStep::Drop
            }),
            final(self).pointer_pending == old(self).pointer_pending,
            final(self).experience_visible == old(self).experience_visible,
            final(self).bootstrap_running == old(self).bootstrap_running,
            final(self).handler_installed == old(self).handler_installed,
            final(self).button_captured == old(self).button_captured,
    {
        if self.bootstrap_pending {
            self.bootstrap_pending = false;
            return ClickStep::CaptureButton;
        }
        let deadline = self.suppression_deadline_ms;
        self.suppression_deadline_ms = 0;
        if deadline != 0 {
            ClickStep::CheckDeadline(deadline)
        } else if self.handler_installed {
            ClickStep::CallOriginal
        } else {
            ClickStep::Drop
        }
    }

    /// The clock read `now_ms` for a click with `deadline`: within it the button
    /// is taken, after it the native handler runs where it is installed.
    pub fn finish_click(&self, deadline: u64, now_ms: u64) -> (r: ClickStep)
        ensures
            now_ms <= deadline ==> r == ClickStep::CaptureButton,
            now_ms > deadline ==> r == (if self.handler_installed {
                ClickStep::CallOriginal
            } else {
                ClickStep::Drop
            }),
    {
        if now_ms <= deadline {
            ClickStep::CaptureButton
        } else if self.handler_installed {
            ClickStep::CallOriginal
        } else {
            ClickStep::Drop
        }
    }

    /// The button was taken from a click: remember it; it is to be told the
    /// current visibility, which is returned.
    pub fn capture_button(&mut self) -> (r: bool)
        ensures
            final(self).button_captured,
            r == old(self).experience_visible,
            final(self).pointer_pending == old(self).pointer_pending,
            final(self).suppression_deadline_ms == old(self).suppression_deadline_ms,
            final(self).experience_visible == old(self).experience_visible,
            final(self).bootstrap_pending == old(self).bootstrap_pending,
            final(self).bootstrap_running == old(self).bootstrap_running,
            final(self).handler_installed == old(self).handler_installed,
    {
        self.button_captured = true;
        self.experience_visible
    }
}

/// Whether `(x, y)` lies in `rect`: left and top edges included, right and
/// bottom edges excluded.
pub fn point_in_rect(x: i32, y: i32, rect: Rect) -> (r: bool)
    ensures
        r == (rect.left <= x < rect.right && rect.top <= y < rect.bottom),
{
    x >= rect.left && x < rect.right && y >= rect.top && y < rect.bottom
}

pub open spec fn spec_inferred_start_button(taskbar: Rect, task_list: Rect) -> Rect {
    let width = taskbar.right - taskbar.left;
    let height = taskbar.bottom - taskbar.top;
    if width >= height {
        let size = if height >= 1 { height } else { 1 };
        Rect {
            left: (if task_list.left - size >= taskbar.left { task_list.left - size } else { taskbar.left as int }) as i32,
            top: taskbar.top,
            right: (if task_list.left <= taskbar.right { task_list.left } else { taskbar.right }),
            bottom: taskbar.bottom,
        }
    } else {
        let size = if width >= 1 { width } else { 1 };
        Rect {
            left: taskbar.left,
            top: (if task_list.top - size >= taskbar.top { task_list.top - size } else { taskbar.top as int }) as i32,
            right: taskbar.right,
            bottom: (if task_list.top <= taskbar.bottom { task_list.top } else { taskbar.bottom }),
        }
    }
}

/// Where the Start button is when only the task list was found: a square as
/// deep as the taskbar just before the task list, along the taskbar's length,
/// kept on the taskbar.
pub fn inferred_start_button_rect(taskbar: Rect, task_list: Rect) -> (r: Rect)
    ensures
        r == spec_inferred_start_button(taskbar, task_list),
{
    let width = taskbar.right as i64 - taskbar.left as i64;
    let height = taskbar.bottom as i64 - taskbar.top as i64;
    if width >= height {
        let size: i64 = if height >= 1 { height } else { 1 };
        let wanted = task_list.left as i64 - size;
        Rect {
            left: if wanted >= taskbar.left as i64 { wanted as i32 } else { taskbar.left },
            top: taskbar.top,
            right: if task_list.left <= taskbar.right { task_list.left } else { taskbar.right },
            bottom: taskbar.bottom,
        }
    } else {
        let size: i64 = if width >= 1 { width } else { 1 };
        let wanted = task_list.top as i64 - size;
        Rect {
            left: taskbar.left,
            top: if wanted >= taskbar.top as i64 { wanted as i32 } else { taskbar.top },
            right: taskbar.right,
            bottom: if task_list.top <= taskbar.bottom { task_list.top } else { taskbar.bottom },
        }
    }
}

/// The classes of the primary and secondary taskbars.
pub open spec fn spec_is_taskbar_class(class: Seq<char>) -> bool {
    class == "Shell_TrayWnd"@ || class == "Shell_SecondaryTrayWnd"@
}

/// The root window classes whose clicks toggle the Start menu off.
pub open spec fn spec_is_taskbar_activation_class(class: Seq<char>) -> bool {
    class == "Shell_TrayWnd"@ || class == "Shell_SecondaryTrayWnd"@ || class == "TaskListThumbnailWnd"@ || class
        == "TaskListThumbnailWndXaml"@ || class == "XamlExplorerHostIslandWindow"@
}

/// Every window the bridge treats as part of the taskbar runs on a thread that
/// the installer hooks: the hooked classes are exactly the classes whose clicks
/// the bridge answers, the primary and the secondary taskbar among them.
pub proof fn lemma_taskbar_windows_are_hooked(class: Seq<char>)
    ensures
        spec_is_taskbar_class(class) ==> spec_is_taskbar_activation_class(class),
        spec_is_hooked_class(class) == spec_is_taskbar_activation_class(class),
{
}

/// The classes of the primary and secondary taskbars.
pub fn is_taskbar_class(class: &str) -> (r: bool)
    ensures
        r == (class@ == "Shell_TrayWnd"@ || class@ == "Shell_SecondaryTrayWnd"@),
        r == spec_is_taskbar_class(class@),
{
    text_equals(class, "Shell_TrayWnd") || text_equals(class, "Shell_SecondaryTrayWnd")
}

/// The root window classes whose clicks toggle the Start menu off: the
/// taskbars, the task list thumbnails and the XAML host islands.
pub fn is_taskbar_activation_class(class: &str) -> (r: bool)
    ensures
        r == (class@ == "Shell_TrayWnd"@ || class@ == "Shell_SecondaryTrayWnd"@ || class@ == "TaskListThumbnailWnd"@
            || class@ == "TaskListThumbnailWndXaml"@ || class@ == "XamlExplorerHostIslandWindow"@),        r == spec_is_taskbar_activation_class(class@),
{
    text_equals(class, "Shell_TrayWnd") || text_equals(class, "Shell_SecondaryTrayWnd") || text_equals(
        class,
        "TaskListThumbnailWnd",
    ) || text_equals(class, "TaskListThumbnailWndXaml") || text_equals(class, "XamlExplorerHostIslandWindow")
}

/// The class of the Start menu window the bridge routes to.
pub fn is_start_window_class(class: &str) -> (r: bool)
    ensures
        r == (class@ == "Windows.UI.EpStartWindow"@),
{
    text_equals(class, "Windows.UI.EpStartWindow")
}

/// What a child window of the taskbar tells the search for the Start button.
#[derive(Clone, Copy, Debug, PartialEq, Eq, Structural)]
pub enum StartButtonProbe {
    /// The task list: remember its rectangle.
    TaskList,
    /// The Start button, and the point is on it: stop.
    Found,
    Other,
}

/// The child window of class `class` with rectangle `rect`, searched for the
/// point `(x, y)`.
pub fn probe_start_button(class: &str, rect: Rect, x: i32, y: i32) -> (r: StartButtonProbe)
    ensures
        class@ == "Start"@ && rect.left <= x < rect.right && rect.top <= y < rect.bottom ==> r
            == StartButtonProbe::Found,
        class@ == "MSTaskListWClass"@ ==> r == StartButtonProbe::TaskList,
        !(class@ == "MSTaskListWClass"@) && !(class@ == "Start"@ && rect.left <= x < rect.right && rect.top <= y
            < rect.bottom) ==> r == StartButtonProbe::Other,
{
    proof {
        reveal_strlit("Start");
        reveal_strlit("MSTaskListWClass");
        assert("Start"@.len() != "MSTaskListWClass"@.len());
    }
    if text_equals(class, "MSTaskListWClass") {
        return StartButtonProbe::TaskList;
    }
    if text_equals(class, "Start") && point_in_rect(x, y, rect) {
        return StartButtonProbe::Found;
    }
    StartButtonProbe::Other
}

/// Modifier flag of the Windows key in a hotkey registration.
pub const MOD_WIN: u32 = 0x0008;

/// Whether the shell's registration of a hotkey is refused: that of the Windows
/// key alone, which would open the native Start menu.
pub fn blocks_hotkey_registration(modifiers: u32, key: u32) -> (r: bool)
    ensures
        r == (modifiers == MOD_WIN && key == 0),
{
    modifiers == MOD_WIN && key == 0
}

pub const WM_SYSCOMMAND: u32 = 0x0112;
pub const SC_TASKLIST: u32 = 0xF130;

/// Whether a message to the desktop window is the system command that opens
/// the Start menu.
pub fn is_task_list_command(message: u32, wparam: usize) -> (r: bool)
    ensures
        r == (message == WM_SYSCOMMAND && ((wparam as u32) & 0xFFF0u32) == SC_TASKLIST),
{
    message == WM_SYSCOMMAND && ((wparam as u32) & 0xFFF0) == SC_TASKLIST
}

pub const WM_LBUTTONDOWN: u32 = 0x0201;
pub const WM_LBUTTONUP: u32 = 0x0202;
pub const WM_LBUTTONDBLCLK: u32 = 0x0203;
pub const WM_NCPOINTERDOWN: u32 = 0x0242;
pub const WM_POINTERDOWN: u32 = 0x0246;

/// What a mouse event seen by the hook is.
#[derive(Clone, Copy, Debug, PartialEq, Eq, Structural)]
pub enum MouseEvent {
    Down,
    Up,
    Other,
}

/// The mouse hook's event for message `message`.
pub fn mouse_event(message: u32) -> (r: MouseEvent)
    ensures
        r == (if message == WM_LBUTTONDOWN || message == WM_LBUTTONDBLCLK {
            MouseEvent::Down
        } else if message == WM_LBUTTONUP {
            MouseEvent::Up
        } else {
            MouseEvent::Other
        }),
{
    if message == WM_LBUTTONDOWN || message == WM_LBUTTONDBLCLK {
        MouseEvent::Down
    } else if message == WM_LBUTTONUP {
        MouseEvent::Up
    } else {
        MouseEvent::Other
    }
}

/// What a message seen by the message hook is.
#[derive(Clone, Copy, Debug, PartialEq, Eq, Structural)]
pub enum BridgeMessage {
    /// The Start menu reports its visibility; the message is swallowed.
    ExperienceVisible(bool),
    /// A press of the pointer.
    PointerDown,
    Other,
}

/// The message hook's reading of `message` with `wparam`; `state_message` is
/// the registered visibility message, 0 before it is registered.
pub fn bridge_message(message: u32, wparam: usize, state_message: u32) -> (r: BridgeMessage)
    ensures
        r == (if message == state_message {
            BridgeMessage::ExperienceVisible(wparam != 0)
        } else if message == WM_LBUTTONDOWN || message == WM_LBUTTONDBLCLK || message == WM_POINTERDOWN || message
            == WM_NCPOINTERDOWN {
            BridgeMessage::PointerDown
        } else {
            BridgeMessage::Other
        }),
{
    if message == state_message {
        BridgeMessage::ExperienceVisible(wparam != 0)
    } else if message == WM_LBUTTONDOWN || message == WM_LBUTTONDBLCLK || message == WM_POINTERDOWN || message
        == WM_NCPOINTERDOWN {
        BridgeMessage::PointerDown
    } else {
        BridgeMessage::Other
    }
}

/// Whether the Start menu took a routed action: the message was delivered and
/// it answered 1.
pub fn route_handled(sent: isize, handled: usize) -> (r: bool)
    ensures
        r == (sent != 0 && handled == 1),
{
    sent != 0 && handled == 1
}

/// Whether a release on the taskbar that the Start button did not take is
/// reported to the Start menu as a taskbar activation.
pub fn posts_taskbar_activation(start_handled: bool, activation_target: bool, on_taskbar: bool) -> (r: bool)
    ensures
        r == (!start_handled && (activation_target || on_taskbar)),
{
    !start_handled && (activation_target || on_taskbar)
}

/// The action codes the bridge sends to the Start menu.
pub const START_ACTION_KEYBOARD: usize = 0;
pub const START_ACTION_BUTTON_CLICK: usize = 1;
pub const START_ACTION_TASKBAR_ACTIVATION: usize = 2;

} // verus!
