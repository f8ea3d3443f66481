use raflow::text::{chars_of, decimal_string, digit_str, split, spells};
use raflow::tray::{menu_action, toggle_label, MenuAction};
use raflow::AppError;

#[test]
fn every_error_has_its_heading() {
    let d = || "boom".to_string();
    let cases = [
        (AppError::Audio(d()), "Audio error: boom"),
        (AppError::WebSocket(d()), "WebSocket error: boom"),
        (AppError::Api(d()), "API error: boom"),
        (AppError::Input(d()), "Input error: boom"),
        (AppError::Permission(d()), "Permission error: boom"),
        (AppError::Config(d()), "Configuration error: boom"),
        (AppError::State(d()), "State error: boom"),
        (AppError::Io(d()), "IO error: boom"),
        (AppError::Serialization(d()), "Serialization error: boom"),
    ];
    for (e, text) in cases {
        assert_eq!(e.message(), text);
        assert_eq!(e.detail(), "boom");
        assert_eq!(format!("{}{}", e.prefix(), e.detail()), text);
    }
}

#[test]
fn splitting_at_a_sign() {
    assert_eq!(split("a+b", '+'), vec!["a", "b"]);
    assert_eq!(split("", '+'), vec![""]);
    assert_eq!(split("+", '+'), vec!["", ""]);
    assert_eq!(split("a++b+", '+'), vec!["a", "", "b", ""]);
    assert_eq!(split("no sign", '+'), vec!["no sign"]);
    assert_eq!(split("你+好", '+'), vec!["你", "好"]);
    for s in ["", "+", "a+b", "++a", "Ctrl+Shift+\\", "é+ü+"] {
        assert_eq!(split(s, '+'), s.split('+').collect::<Vec<_>>());
    }
}

#[test]
fn characters_and_spelling() {
    assert_eq!(chars_of("né!"), vec!['n', 'é', '!']);
    assert_eq!(chars_of(""), Vec::<char>::new());
    assert!(spells(&vec!['a', 'b'], "ab"));
    assert!(!spells(&vec!['a', 'b'], "abc"));
    assert!(!spells(&vec!['a', 'b'], "ac"));
    assert!(spells(&vec![], ""));
}

#[test]
fn decimal_numerals() {
    assert_eq!(decimal_string(0), "0");
    assert_eq!(decimal_string(7), "7");
    assert_eq!(decimal_string(10), "10");
    assert_eq!(decimal_string(4096), "4096");
    assert_eq!(decimal_string(u64::MAX), "18446744073709551615");
    for d in 0u8..10 {
        assert_eq!(digit_str(d), d.to_string());
    }
}

#[test]
fn tray_menu() {
    assert_eq!(menu_action("quit"), MenuAction::Quit);
    assert_eq!(menu_action("toggle"), MenuAction::ToggleRecording);
    assert_eq!(menu_action("settings"), MenuAction::ShowSettings);
    assert_eq!(menu_action("about"), MenuAction::About);
    assert_eq!(menu_action("Quit"), MenuAction::Unknown);
    assert_eq!(menu_action(""), MenuAction::Unknown);
    assert_eq!(toggle_label(false), "Start Recording (⌘⇧\\)");
    assert_eq!(toggle_label(true), "Stop Recording (⌘⇧\\)");
}
