use ep_start::geometry::Rect;
use ep_start::pe::{absolute_jump, code_sections_hold_pattern, find_click_handler, find_import_slot};
use ep_start::shell::{
    BridgeMessage, ClickStep, ExperienceStep, MouseEvent, StartButtonProbe, StartButtonState, blocks_hotkey_registration,
    bridge_message, clock_millis, inferred_start_button_rect, is_start_window_class, is_task_list_command,
    is_taskbar_activation_class, is_taskbar_class, mouse_event, pattern_matches, point_in_rect, pointer_clock_ms,
    posts_taskbar_activation, probe_start_button, route_handled,
};

const PATTERN: [u8; 48] = [
    0x48, 0x89, 0x5C, 0x24, 0x08, 0x48, 0x89, 0x74, 0x24, 0x18, 0x55, 0x57, 0x41, 0x56, 0x48, 0x8B, 0xEC, 0x48, 0x81,
    0xEC, 0xCC, 0xCC, 0xCC, 0xCC, 0x48, 0x8B, 0x05, 0xCC, 0xCC, 0xCC, 0xCC, 0x48, 0x33, 0xC4, 0x48, 0x89, 0x45, 0xF0,
    0x48, 0x8B, 0xDA, 0x48, 0x8D, 0x55, 0xE0, 0x48, 0x8B, 0xCB,
];

#[test]
fn pattern_matches_with_wildcards() {
    let mut bytes = PATTERN;
    assert!(pattern_matches(&bytes));
    bytes[20] = 0x11;
    assert!(pattern_matches(&bytes));
    bytes[0] = 0x00;
    assert!(!pattern_matches(&bytes));
    assert!(pattern_matches(&PATTERN[..10]));
}

/// An image with one executable section at 0x200 of `size` bytes.
fn image(size: usize) -> Vec<u8> {
    let mut data = vec![0u8; 0x200 + size];
    data[0] = 0x4D;
    data[1] = 0x5A;
    data[0x3C] = 0x80;
    data[0x80..0x84].copy_from_slice(&0x4550u32.to_le_bytes());
    data[0x86..0x88].copy_from_slice(&1u16.to_le_bytes());
    data[0x94..0x96].copy_from_slice(&0x10u16.to_le_bytes());
    let section = 0x80 + 24 + 0x10;
    data[section + 8..section + 12].copy_from_slice(&(size as u32).to_le_bytes());
    data[section + 12..section + 16].copy_from_slice(&0x200u32.to_le_bytes());
    data[section + 36..section + 40].copy_from_slice(&0x2000_0020u32.to_le_bytes());
    data
}

#[test]
fn finds_the_one_click_handler() {
    let mut data = image(256);
    data[0x210..0x240].copy_from_slice(&PATTERN);
    assert_eq!(find_click_handler(&data), Some(0x210));
}

#[test]
fn two_click_handlers_are_ambiguous() {
    let mut data = image(256);
    data[0x210..0x240].copy_from_slice(&PATTERN);
    data[0x280..0x2B0].copy_from_slice(&PATTERN);
    assert_eq!(find_click_handler(&data), None);
}

#[test]
fn no_handler_or_no_image() {
    assert_eq!(find_click_handler(&image(256)), None);
    assert_eq!(find_click_handler(&[0u8; 16]), None);
}

#[test]
fn short_code_sections_are_reported() {
    assert!(code_sections_hold_pattern(&image(256)));
    assert!(code_sections_hold_pattern(&image(48)));
    assert!(!code_sections_hold_pattern(&image(47)));
    let mut data = image(16);
    data[0x80 + 24 + 0x10 + 36..0x80 + 24 + 0x10 + 40].copy_from_slice(&0x4000_0040u32.to_le_bytes());
    assert!(code_sections_hold_pattern(&data));
    assert!(code_sections_hold_pattern(&[0u8; 16]));
}

/// A 64-bit image whose one import descriptor names user32.dll.
fn import_image(slots: &[u64]) -> Vec<u8> {
    let mut data = vec![0u8; 0x400];
    data[0] = 0x4D;
    data[1] = 0x5A;
    data[0x3C] = 0x80;
    data[0x80..0x84].copy_from_slice(&0x4550u32.to_le_bytes());
    let optional = 0x80 + 24;
    data[optional..optional + 2].copy_from_slice(&0x020Bu16.to_le_bytes());
    data[optional + 56..optional + 60].copy_from_slice(&0x400u32.to_le_bytes());
    let directory = optional + 120;
    data[directory..directory + 4].copy_from_slice(&0x200u32.to_le_bytes());
    data[directory + 4..directory + 8].copy_from_slice(&40u32.to_le_bytes());
    data[0x200 + 12..0x200 + 16].copy_from_slice(&0x300u32.to_le_bytes());
    data[0x200 + 16..0x200 + 20].copy_from_slice(&0x340u32.to_le_bytes());
    data[0x300..0x30A].copy_from_slice(b"USER32.dll");
    for (index, slot) in slots.iter().enumerate() {
        let at = 0x340 + index * 8;
        data[at..at + 8].copy_from_slice(&slot.to_le_bytes());
    }
    data
}

#[test]
fn finds_the_import_slot_of_user32() {
    let data = import_image(&[0x1111, 0x2222, 0x3333]);
    assert_eq!(find_import_slot(&data, 0x2222), Some(0x348));
    assert_eq!(find_import_slot(&data, 0x4444), None);
}

#[test]
fn other_modules_are_skipped() {
    let mut data = import_image(&[0x1111]);
    data[0x300] = b'X';
    assert_eq!(find_import_slot(&data, 0x1111), None);
}

#[test]
fn absolute_jump_encoding() {
    assert_eq!(
        absolute_jump(0x1122_3344_5566_7788),
        vec![0xFF, 0x25, 0, 0, 0, 0, 0x88, 0x77, 0x66, 0x55, 0x44, 0x33, 0x22, 0x11]
    );
}

#[test]
fn clock_saturates() {
    assert_eq!(clock_millis(5), 5);
    assert_eq!(clock_millis(u128::MAX), u64::MAX);
    let start = std::time::Instant::now();
    assert!(pointer_clock_ms(&start) < 60_000);
}

#[test]
fn a_routed_click_suppresses_the_native_handler_briefly() {
    let mut state = StartButtonState::new();
    state.handler_installed = true;
    state.note_pointer_down(true);
    assert!(state.begin_pointer_up(true));
    assert!(!state.begin_pointer_up(true));
    assert!(state.finish_pointer_up(true, 1000));
    assert_eq!(state.suppression_deadline_ms, 1500);
    assert_eq!(state.begin_click(), ClickStep::CheckDeadline(1500));
    assert_eq!(state.finish_click(1500, 1200), ClickStep::CaptureButton);
    assert_eq!(state.finish_click(1500, 1501), ClickStep::CallOriginal);
    assert_eq!(state.begin_click(), ClickStep::CallOriginal);
    assert!(state.finish_pointer_up(true, u64::MAX - 1));
    assert_eq!(state.suppression_deadline_ms, u64::MAX);
}

#[test]
fn visibility_asks_for_the_button_once() {
    let mut state = StartButtonState::new();
    assert_eq!(state.set_experience_visible(true), ExperienceStep::Bootstrap);
    assert!(state.request_bootstrap());
    assert!(!state.request_bootstrap());
    assert_eq!(state.begin_click(), ClickStep::CaptureButton);
    assert!(state.capture_button());
    assert_eq!(state.set_experience_visible(false), ExperienceStep::UpdateButton(false));
    state.finish_bootstrap();
    assert!(!state.bootstrap_running);
    assert_eq!(state.begin_click(), ClickStep::Drop);
}

#[test]
fn the_start_button_is_inferred_from_the_task_list() {
    let taskbar = Rect { left: 0, top: 1040, right: 1920, bottom: 1088 };
    let task_list = Rect { left: 900, top: 1040, right: 1400, bottom: 1088 };
    assert_eq!(inferred_start_button_rect(taskbar, task_list), Rect { left: 852, top: 1040, right: 900, bottom: 1088 });
    let vertical = Rect { left: 0, top: 0, right: 60, bottom: 1080 };
    let list = Rect { left: 0, top: 30, right: 60, bottom: 900 };
    assert_eq!(inferred_start_button_rect(vertical, list), Rect { left: 0, top: 0, right: 60, bottom: 30 });
    assert!(point_in_rect(852, 1040, Rect { left: 852, top: 1040, right: 900, bottom: 1088 }));
    assert!(!point_in_rect(900, 1050, Rect { left: 852, top: 1040, right: 900, bottom: 1088 }));
}

#[test]
fn window_classes_are_told_apart() {
    assert!(is_taskbar_class("Shell_TrayWnd"));
    assert!(!is_taskbar_class("TaskListThumbnailWnd"));
    assert!(is_taskbar_activation_class("XamlExplorerHostIslandWindow"));
    assert!(is_start_window_class("Windows.UI.EpStartWindow"));
    assert!(!is_start_window_class("Windows.UI.Core"));
    let rect = Rect { left: 0, top: 0, right: 48, bottom: 48 };
    assert_eq!(probe_start_button("Start", rect, 10, 10), StartButtonProbe::Found);
    assert_eq!(probe_start_button("Start", rect, 50, 10), StartButtonProbe::Other);
    assert_eq!(probe_start_button("MSTaskListWClass", rect, 10, 10), StartButtonProbe::TaskList);
}

#[test]
fn hook_messages_are_read() {
    assert!(blocks_hotkey_registration(0x0008, 0));
    assert!(!blocks_hotkey_registration(0x0008, 0x45));
    assert!(is_task_list_command(0x0112, 0xF132));
    assert!(!is_task_list_command(0x0112, 0xF120));
    assert_eq!(mouse_event(0x0203), MouseEvent::Down);
    assert_eq!(mouse_event(0x0202), MouseEvent::Up);
    assert_eq!(bridge_message(0xC123, 1, 0xC123), BridgeMessage::ExperienceVisible(true));
    assert_eq!(bridge_message(0x0246, 0, 0xC123), BridgeMessage::PointerDown);
    assert_eq!(bridge_message(0x0001, 0, 0xC123), BridgeMessage::Other);
    assert!(route_handled(1, 1));
    assert!(!route_handled(0, 1));
    assert!(posts_taskbar_activation(false, false, true));
    assert!(!posts_taskbar_activation(true, true, true));
}
