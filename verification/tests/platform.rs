use ep_start::injector::{
    HookInstallation, HookKind, collects_thread, hook_error, hook_thread_ids, is_explorer_image, is_hooked_class,
    taskbar_owner, text_equals,
};
use ep_start::platform::{
    ForegroundActivation, elevation_result, forwards_foreground_change, joins_input_queues, restart_helper_request,
    taskbar_restarted, uses_small_icon, watch_request,
};
use ep_start::startup::{StartupNext, StartupStep, run, show_fatal_error};
use ep_start::tray::{
    TrayAction, TrayEvent, TrayMenuEntry, TrayNotification, application_tray_config, menu_command_event,
    menu_spacer_color, tray_action, tray_notification,
};

#[test]
fn explorer_is_recognised_by_its_file_name() {
    assert!(is_explorer_image("C:\\Windows\\explorer.exe"));
    assert!(is_explorer_image("C:\\WINDOWS\\EXPLORER.EXE"));
    assert!(is_explorer_image("explorer.exe"));
    assert!(!is_explorer_image("C:\\Windows\\explorer.exe.bak"));
    assert!(!is_explorer_image("C:\\explorer.exe\\other.exe"));
    assert!(!is_explorer_image(""));
}

#[test]
fn hooked_threads_are_sorted_and_unique() {
    assert_eq!(hook_thread_ids(40, &vec![12, 40, 7, 12]), vec![7, 12, 40]);
    assert_eq!(hook_thread_ids(5, &vec![]), vec![5]);
    assert!(collects_thread(100, 7, 100, "TaskListThumbnailWndXaml"));
    assert!(!collects_thread(101, 7, 100, "Shell_TrayWnd"));
    assert!(!collects_thread(100, 0, 100, "Shell_TrayWnd"));
    assert!(!is_hooked_class("Progman"));
    assert!(text_equals("abc", "abc"));
    assert!(!text_equals("abc", "abd"));
}

#[test]
fn failed_hooks_are_rolled_back_mouse_first() {
    let mut hooks = HookInstallation::new();
    hooks.record(HookKind::Message, 1);
    hooks.record(HookKind::Mouse, 2);
    hooks.record(HookKind::Message, 3);
    assert_eq!(hooks.rollback(), vec![2, 1, 3]);
    assert!(hooks.message_hooks.is_empty() && hooks.mouse_hooks.is_empty());
    assert_eq!(hook_error(HookKind::Mouse, 42, "denied"), "安装 Explorer 线程 42 的鼠标钩子失败：denied");
    assert_eq!(hook_error(HookKind::Message, 7, "x"), "安装 Explorer 线程 7 的消息钩子失败：x");
    assert_eq!(taskbar_owner(3, 4), Ok((3, 4)));
    assert_eq!(taskbar_owner(0, 4), Err("无法读取任务栏所属线程".to_string()));
}

fn arguments(values: &[&str]) -> Vec<String> {
    values.iter().map(|value| value.to_string()).collect()
}

#[test]
fn restart_helper_command_line() {
    assert_eq!(restart_helper_request(&arguments(&["ep_start.exe"])), Ok(None));
    assert_eq!(restart_helper_request(&arguments(&["ep_start.exe", "--other"])), Ok(None));
    assert_eq!(
        restart_helper_request(&arguments(&["ep_start.exe", "--ep-start-restart-shell-helper", "4242"])),
        Ok(Some(4242))
    );
    assert_eq!(
        restart_helper_request(&arguments(&["ep_start.exe", "--ep-start-restart-shell-helper"])),
        Err("重启辅助进程缺少父进程 ID".to_string())
    );
    assert_eq!(
        restart_helper_request(&arguments(&["ep_start.exe", "--ep-start-restart-shell-helper", "12x"])),
        Err("解析父进程 ID 失败：invalid digit found in string".to_string())
    );
}

#[test]
fn elevation_answers() {
    assert_eq!(elevation_result(42), Ok(false));
    assert_eq!(elevation_result(5), Err("请求管理员权限失败，ShellExecuteW 返回 5".to_string()));
    assert_eq!(elevation_result(-3), Err("请求管理员权限失败，ShellExecuteW 返回 -3".to_string()));
    assert!(taskbar_restarted(20, 10));
    assert!(!taskbar_restarted(10, 10));
    assert!(!taskbar_restarted(0, 10));
}

#[test]
fn focus_is_handed_back_once() {
    let mut activation = ForegroundActivation::activate(1, 2);
    assert_eq!(activation.previous, Some(2));
    assert!(activation.reactivates(1, true));
    assert!(!activation.reactivates(3, true));
    assert_eq!(activation.restore(), Some(2));
    assert_eq!(activation.restore(), None);
    let mut abandoned = ForegroundActivation::activate(1, 2);
    abandoned.abandon_restore();
    assert_eq!(abandoned.restore(), None);
    assert_eq!(ForegroundActivation::activate(1, 1).previous, None);
    assert_eq!(ForegroundActivation::activate(1, 0).previous, None);
    assert!(joins_input_queues(1, 2));
    assert!(!joins_input_queues(1, 1));
    assert!(forwards_foreground_change(3, true, 10, 11, 0xC000));
    assert!(!forwards_foreground_change(3, false, 10, 11, 0xC000));
    assert!(watch_request(10, 0xC000).is_ok());
    assert_eq!(watch_request(0, 0xC000), Err("无法使用无效窗口或消息监听前台切换".to_string()));
    assert!(uses_small_icon(16, 16));
    assert!(uses_small_icon(8, 12));
    assert!(!uses_small_icon(20, 20));
}

#[test]
fn tray_notifications_and_commands() {
    assert_eq!(tray_notification(0x0400), TrayNotification::Activate);
    assert_eq!(tray_notification(0x0001_0401), TrayNotification::Activate);
    assert_eq!(tray_notification(0x007B), TrayNotification::ShowMenu);
    assert_eq!(tray_notification(0x0200), TrayNotification::Ignore);
    assert_eq!(menu_command_event(0), None);
    assert_eq!(menu_command_event(2), Some(TrayEvent::Command(2)));
    assert_eq!(tray_action(TrayEvent::Activate), TrayAction::ToggleStart);
    assert_eq!(tray_action(TrayEvent::Command(1)), TrayAction::ShowSettings);
    assert_eq!(tray_action(TrayEvent::Command(2)), TrayAction::Exit);
    assert_eq!(tray_action(TrayEvent::Command(9)), TrayAction::Ignore);
    assert_eq!(menu_spacer_color(true), 0x2D2D2D);
    assert_eq!(menu_spacer_color(false), 0xF9F9F9);
}

#[test]
fn the_tray_menu_of_the_application() {
    let config = application_tray_config("Open".to_string(), "Quit".to_string(), &[1, 2], &[3, 4, 5]);
    assert_eq!(config.tooltip, "ep_start");
    assert_eq!(config.menu.len(), 3);
    assert!(matches!(&config.menu[0], TrayMenuEntry::Command { id: 1, label } if label == "Open"));
    assert!(matches!(config.menu[1], TrayMenuEntry::Separator));
    assert!(matches!(&config.menu[2], TrayMenuEntry::Command { id: 2, label } if label == "Quit"));
    assert!(matches!(TrayMenuEntry::command(7, "x".to_string()), TrayMenuEntry::Command { id: 7, .. }));
    assert!(matches!(TrayMenuEntry::separator(), TrayMenuEntry::Separator));
}

#[test]
fn start_up_steps() {
    assert!(matches!(run(StartupStep::RestartHelper, Ok(true)), StartupNext::Finish(Ok(()))));
    assert!(matches!(run(StartupStep::RestartHelper, Ok(false)), StartupNext::Continue(StartupStep::Elevation)));
    assert!(matches!(run(StartupStep::Elevation, Ok(false)), StartupNext::Finish(Ok(()))));
    assert!(matches!(run(StartupStep::Elevation, Ok(true)), StartupNext::Continue(StartupStep::Application)));
    assert!(matches!(run(StartupStep::Application, Ok(true)), StartupNext::Continue(StartupStep::MessageLoop)));
    assert!(matches!(run(StartupStep::MessageLoop, Ok(false)), StartupNext::Finish(Ok(()))));
    match run(StartupStep::Application, Err("broken".to_string())) {
        StartupNext::Finish(Err(message)) => assert_eq!(message, "broken"),
        _ => panic!("an error ends the start-up"),
    }
    let dialog = show_fatal_error("no config");
    assert_eq!(dialog.title, "ep_start 启动失败");
    assert_eq!(dialog.message, "no config");
}
