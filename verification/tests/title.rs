use timegrid_shell::text::same_text;
use timegrid_shell::title::{
    format_title, title_update_outcome, update_tray_title, DEFAULT_TITLE,
};

#[test]
fn title_with_elapsed_and_project() {
    assert_eq!(format_title("01:23:45", "Website"), "⏱ 01:23:45 • Website");
}

#[test]
fn title_with_elapsed_only() {
    assert_eq!(format_title("00:05", ""), "⏱ 00:05");
}

#[test]
fn title_with_nothing_is_the_default() {
    assert_eq!(format_title("", ""), "TimeGrid");
    assert_eq!(DEFAULT_TITLE, "TimeGrid");
}

#[test]
fn project_alone_is_never_shown() {
    assert_eq!(format_title("", "Website"), "TimeGrid");
    assert_eq!(format_title("", "⏱"), "TimeGrid");
}

#[test]
fn title_keeps_text_as_given() {
    assert_eq!(format_title(" ", " "), "⏱   •  ");
    assert_eq!(format_title("1 h", "Zürich • 東京"), "⏱ 1 h • Zürich • 東京");
}

#[test]
fn title_update_needs_a_tray_icon() {
    assert_eq!(update_tray_title(false, "00:05", "Website"), None);
    assert_eq!(update_tray_title(false, "", ""), None);
}

#[test]
fn title_update_carries_the_formatted_title() {
    assert_eq!(
        update_tray_title(true, "00:05", "Website"),
        Some(String::from("⏱ 00:05 • Website"))
    );
    assert_eq!(update_tray_title(true, "00:05", ""), Some(String::from("⏱ 00:05")));
    assert_eq!(update_tray_title(true, "", "Website"), Some(String::from("TimeGrid")));
}

#[test]
fn same_text_on_equal_strings() {
    assert!(same_text("", ""));
    assert!(same_text("settings", "settings"));
    assert!(same_text("⏱ • 東京", "⏱ • 東京"));
}

#[test]
fn same_text_on_different_strings() {
    assert!(!same_text("", "a"));
    assert!(!same_text("settings", "setting"));
    assert!(!same_text("settings", "Settings"));
    assert!(!same_text("tray_show", "tray_quit"));
    assert!(!same_text("é", "e"));
    assert!(!same_text("ab", "ba"));
}

#[test]
fn skipped_title_update_is_a_success() {
    assert_eq!(title_update_outcome(None), Ok(()));
}

#[test]
fn applied_title_update_is_a_success() {
    assert_eq!(title_update_outcome(Some(Ok(()))), Ok(()));
}

#[test]
fn failed_title_update_passes_the_message_on() {
    assert_eq!(
        title_update_outcome(Some(Err(String::from("tray is gone")))),
        Err(String::from("tray is gone"))
    );
    assert_eq!(title_update_outcome(Some(Err(String::new()))), Err(String::new()));
}
