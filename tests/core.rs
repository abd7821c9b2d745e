use auranote::config::{get_save_directory, save_directory_value, stored_save_directory, SaveDirectory};
use auranote::locale::Locale;
use auranote::notes::{is_blank, note_file_name, save_note};
use auranote::placement::top_right_position;
use auranote::session::{autostart_checked, decide, menu_action_from_id, Action, Event, MenuAction};
use auranote::translations::{I18n, Platform};

#[test]
fn placement_is_top_right() {
    assert_eq!(top_right_position(1920), (1384, 16));
    assert_eq!(top_right_position(2560), (2024, 16));
    assert_eq!(top_right_position(0), (-536, 16));
    assert_eq!(top_right_position(u32::MAX), (u32::MAX as i64 - 536, 16));
}

#[test]
fn blank_content_is_not_saved() {
    assert!(is_blank(""));
    assert!(is_blank("   "));
    assert!(is_blank("\n\t"));
    assert!(is_blank("\u{a0}\u{3000}\r"));
    assert!(!is_blank("hello"));
    assert!(!is_blank("  x  "));
    let i = I18n::new(Locale::En, Platform::Linux);
    assert_eq!(save_note(&i, "", "2024-01-02-03-04-05"), None);
    assert_eq!(save_note(&i, "   ", "2024-01-02-03-04-05"), None);
    assert_eq!(save_note(&i, "\n\t", "2024-01-02-03-04-05"), None);
}

#[test]
fn note_names_follow_scheme() {
    assert_eq!(note_file_name("note", "2024-01-02-03-04-05"), "note-2024-01-02-03-04-05.md");
    assert_eq!(note_file_name("nota", "x"), "nota-x.md");
}

#[test]
fn saving_text_names_a_note_file() {
    let i = I18n::new(Locale::En, Platform::Linux);
    assert_eq!(
        save_note(&i, "hello", "2025-06-07-08-09-10"),
        Some("note-2025-06-07-08-09-10.md".to_string())
    );
    let i = I18n::new(Locale::PtBR, Platform::Linux);
    assert_eq!(
        save_note(&i, " olá ", "1999-12-31-23-59-59"),
        Some("nota-1999-12-31-23-59-59.md".to_string())
    );
}

#[test]
fn save_directory_round_trip() {
    let entry = save_directory_value("/home/u/notes");
    assert_eq!(entry.as_str(), Some("/home/u/notes"));
    let stored = stored_save_directory(Some(&entry));
    assert_eq!(stored, Some("/home/u/notes".to_string()));
    match get_save_directory(stored.clone(), true) {
        SaveDirectory::Stored(p) => assert_eq!(p, "/home/u/notes"),
        SaveDirectory::Default => panic!("stored directory expected"),
    }
    assert!(matches!(get_save_directory(stored.clone(), false), SaveDirectory::Default));
    assert!(matches!(get_save_directory(stored, false), SaveDirectory::Default));
}

#[test]
fn missing_or_odd_entry_gives_default() {
    assert_eq!(stored_save_directory(None), None);
    let number = serde_json::Value::from(3);
    assert_eq!(stored_save_directory(Some(&number)), None);
    assert!(matches!(get_save_directory(None, true), SaveDirectory::Default));
}

#[test]
fn hotkey_toggles_visibility() {
    assert!(matches!(decide(Event::HotkeyPressed, true, None), Action::Hide));
    assert!(matches!(decide(Event::HotkeyPressed, false, None), Action::PlaceAndShow));
}

#[test]
fn tray_click_never_hides() {
    assert!(matches!(decide(Event::TrayIconLeftClicked, true, Some(true)), Action::PlaceAndShow));
    assert!(matches!(decide(Event::TrayIconLeftClicked, false, None), Action::PlaceAndShow));
}

#[test]
fn menu_actions() {
    assert!(matches!(decide(Event::Menu(MenuAction::Quit), true, None), Action::Quit));
    assert!(matches!(
        decide(Event::Menu(MenuAction::ConfigureDirectory), false, None),
        Action::OpenFolderPicker
    ));
    assert!(matches!(
        decide(Event::Menu(MenuAction::ToggleAutostart), false, Some(true)),
        Action::SetAutostart(false)
    ));
    assert!(matches!(
        decide(Event::Menu(MenuAction::ToggleAutostart), false, Some(false)),
        Action::SetAutostart(true)
    ));
    assert!(matches!(decide(Event::Menu(MenuAction::ToggleAutostart), false, None), Action::Nothing));
}

#[test]
fn folder_pick_outcomes() {
    match decide(Event::FolderPicked(Some("/tmp/n".to_string())), false, None) {
        Action::StoreSaveDirectory(p) => assert_eq!(p, "/tmp/n"),
        other => panic!("unexpected {:?}", other),
    }
    assert!(matches!(decide(Event::FolderPicked(None), false, None), Action::Nothing));
}

#[test]
fn menu_ids() {
    assert_eq!(menu_action_from_id("config_dir"), Some(MenuAction::ConfigureDirectory));
    assert_eq!(menu_action_from_id("autostart"), Some(MenuAction::ToggleAutostart));
    assert_eq!(menu_action_from_id("quit"), Some(MenuAction::Quit));
    assert_eq!(menu_action_from_id("quit2"), None);
    assert_eq!(menu_action_from_id(""), None);
}

#[test]
fn autostart_item_follows_query() {
    assert!(autostart_checked(Some(true), false));
    assert!(!autostart_checked(Some(false), true));
    assert!(autostart_checked(None, true));
    assert!(!autostart_checked(None, false));
}
