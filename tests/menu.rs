use echo_shell::menu::{
    about_window, app_menu_command, app_menu_layout, format_menu_text, handle_about_event, handle_app_menu_event,
    handle_close_event, handle_open_event, tray_menu_items, AppMenuCommand,
};
use echo_shell::shell::{Effect, Presence, Shell, Visibility, WindowRole};

#[test]
fn format_menu_text_pads_to_width() {
    assert_eq!(format_menu_text("打开", 8), "打开      ");
    assert_eq!(format_menu_text("打开窗口", 10), "打开窗口      ");
    assert_eq!(format_menu_text("", 3), "   ");
}

#[test]
fn format_menu_text_keeps_long_text() {
    assert_eq!(format_menu_text("abcdef", 6), "abcdef");
    assert_eq!(format_menu_text("abcdefgh", 3), "abcdefgh");
    assert_eq!(format_menu_text("x", 0), "x");
}

#[test]
fn app_menu_layout_lists_file_and_help() {
    let menu = app_menu_layout();
    assert_eq!(menu.len(), 3);
    assert_eq!(menu[0].title, "");
    assert!(menu[0].items.is_empty());
    assert_eq!(menu[1].title, "文件");
    let ids: Vec<&str> = menu[1].items.iter().map(|i| i.id.as_str()).collect();
    assert_eq!(ids, vec!["open", "close", "quit"]);
    assert_eq!(menu[1].items[0].label, "打开窗口      ");
    assert_eq!(menu[1].items[1].label, "关闭窗口      ");
    assert_eq!(menu[1].items[2].accelerator.as_deref(), Some("CmdOrCtrl+Q"));
    assert_eq!(menu[2].title, "帮助");
    assert_eq!(menu[2].items[0].id, "about");
    assert_eq!(menu[2].items[0].accelerator.as_deref(), Some("CmdOrCtrl+I"));
    assert!(menu[2].items[0].enabled);
}

#[test]
fn tray_menu_lists_main_and_quit() {
    let items = tray_menu_items();
    assert_eq!(items.len(), 2);
    assert_eq!(items[0].id, "main");
    assert_eq!(items[0].label, "主窗口");
    assert_eq!(items[0].accelerator.as_deref(), Some("CmdOrCtrl+M"));
    assert_eq!(items[1].id, "quit");
    assert_eq!(items[1].label, "退出");
}

#[test]
fn app_menu_identifiers() {
    assert_eq!(app_menu_command("open"), AppMenuCommand::Open);
    assert_eq!(app_menu_command("close"), AppMenuCommand::Close);
    assert_eq!(app_menu_command("quit"), AppMenuCommand::Quit);
    assert_eq!(app_menu_command("about"), AppMenuCommand::About);
    assert_eq!(app_menu_command("about "), AppMenuCommand::Unknown);
    assert_eq!(app_menu_command("main"), AppMenuCommand::Unknown);
}

#[test]
fn open_shows_and_focuses_main() {
    let mut s = Shell { main: Some(Visibility::Hidden), ..Shell::new() };
    assert_eq!(handle_open_event(&mut s), vec![Effect::Show(WindowRole::Main), Effect::Focus(WindowRole::Main)]);
    assert_eq!(s.main, Some(Visibility::Focused));
    let mut none = Shell::new();
    assert!(handle_open_event(&mut none).is_empty());
}

#[test]
fn close_hides_main_and_keeps_presence() {
    let mut s = Shell { main: Some(Visibility::Focused), ..Shell::new() };
    assert_eq!(handle_close_event(&mut s), vec![Effect::Hide(WindowRole::Main)]);
    assert_eq!(s.main, Some(Visibility::Hidden));
    assert_eq!(s.presence, Presence::Regular);
    assert_eq!(handle_close_event(&mut s), vec![Effect::Hide(WindowRole::Main)]);
    assert_eq!(s.main, Some(Visibility::Hidden));
}

#[test]
fn about_twice_creates_once_then_focuses() {
    let mut s = Shell::new();
    assert_eq!(handle_about_event(&mut s), vec![Effect::CreateAbout]);
    assert_eq!(s.about, Some(Visibility::Focused));
    let second = handle_about_event(&mut s);
    assert_eq!(second, vec![Effect::Show(WindowRole::About), Effect::Focus(WindowRole::About)]);
    assert!(!second.contains(&Effect::CreateAbout));
    assert_eq!(s.about, Some(Visibility::Focused));
}

#[test]
fn about_window_is_fixed_and_centred() {
    let w = about_window();
    assert_eq!(w.label, "about");
    assert_eq!(w.route, "/about");
    assert_eq!(w.title, "关于 Echo");
    assert_eq!((w.width, w.height), (520, 600));
    assert!(!w.resizable);
    assert!(w.centered);
}

#[test]
fn app_menu_quit_exits_with_zero_and_unknown_is_ignored() {
    let mut s = Shell { main: Some(Visibility::Shown), about: Some(Visibility::Hidden), ..Shell::new() };
    assert!(handle_app_menu_event(&mut s, "preferences").is_empty());
    assert_eq!(s, Shell { main: Some(Visibility::Shown), about: Some(Visibility::Hidden), ..Shell::new() });
    assert_eq!(handle_app_menu_event(&mut s, "quit"), vec![Effect::Exit(0)]);
    assert_eq!(s.exit_code, Some(0));
}
