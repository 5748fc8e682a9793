use echo_shell::commands::{get_user_info, greet, GreetParams};
use echo_shell::config::{AppConfig, AutostartConfig, Launcher};
use echo_shell::events::{DataChangedEvent, EventType, UserUpdatedEvent};
use echo_shell::text::{push_decimal, same_text};

#[test]
fn greet_builds_message() {
    let r = greet(&GreetParams { name: "Ada".to_string() }).unwrap();
    assert_eq!(r.message, "Hello, Ada! You've been greeted from Rust!");
    let r = greet(&GreetParams { name: String::new() }).unwrap();
    assert_eq!(r.message, "Hello, ! You've been greeted from Rust!");
}

#[test]
fn user_info_renders_id_in_decimal() {
    assert_eq!(get_user_info(42).unwrap(), "User info for ID: 42");
    assert_eq!(get_user_info(0).unwrap(), "User info for ID: 0");
    assert_eq!(get_user_info(u32::MAX).unwrap(), "User info for ID: 4294967295");
}

#[test]
fn push_decimal_appends() {
    let mut s = String::from("n=");
    push_decimal(&mut s, 1009);
    assert_eq!(s, "n=1009");
}

#[test]
fn same_text_compares_characters() {
    assert!(same_text("about", "about"));
    assert!(!same_text("about", "abou"));
    assert!(!same_text("文件", "帮助"));
    assert!(same_text("", ""));
}

#[test]
fn event_names() {
    assert_eq!(EventType::UserUpdated.name(), "user-updated");
    assert_eq!(EventType::DataChanged.name(), "data-changed");
    assert_eq!(EventType::StatusChanged.name(), "status-changed");
    let u = UserUpdatedEvent { user_id: 7, username: "x".to_string() };
    let d = DataChangedEvent { data_type: "user_info".to_string(), timestamp: 1715548800 };
    assert_eq!((u.user_id, d.timestamp), (7, 1715548800));
}

#[test]
fn default_config_leaves_autostart_off() {
    let c = AppConfig::default();
    assert!(!c.autostart_enabled);
    assert_eq!(c.autostart_config.launcher, Launcher::LaunchAgent);
    assert_eq!(c.autostart_config.args, Some(vec!["--flag1", "--flag2"]));
    assert_eq!(AutostartConfig::default().launcher, Launcher::LaunchAgent);
}
