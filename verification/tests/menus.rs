use bit7z_archiver::adapters::menus::{shortcut_action, Shortcut};
use bit7z_archiver::adapters::events::ChecksumAlgorithm;
use bit7z_archiver::adapters::menus::{action_enabled, context_menu_items, ContextItem, FileListIntent, MenuAction};

fn labels(items: &[ContextItem]) -> Vec<String> {
    items
        .iter()
        .map(|c| match c {
            ContextItem::Separator => "-".to_string(),
            ContextItem::Item(l, _) => l.clone(),
        })
        .collect()
}

#[test]
fn menu_bar_actions() {
    assert!(action_enabled(MenuAction::OpenArchive, false, false));
    assert!(action_enabled(MenuAction::About, false, false));
    assert!(!action_enabled(MenuAction::CloseArchive, false, false));
    assert!(action_enabled(MenuAction::CloseArchive, true, false));
    assert!(!action_enabled(MenuAction::DeleteSelected, true, false));
    assert!(action_enabled(MenuAction::ChecksumSha1, false, true));
    assert!(action_enabled(MenuAction::TestAll, true, false));
}

#[test]
fn context_menu_without_selection() {
    let m = context_menu_items(0, true);
    assert_eq!(labels(&m), vec!["-", "Select All", "-", "Refresh"]);
    assert_eq!(labels(&context_menu_items(0, false)), vec!["-", "Select All", "-"]);
}

#[test]
fn context_menu_for_one_entry() {
    let m = context_menu_items(1, true);
    assert_eq!(
        labels(&m),
        vec![
            "Open", "Preview", "Extract...", "Test...", "-", "Rename", "Delete", "-", "CRC32", "MD5", "SHA1", "SHA256",
            "-", "Select All", "Clear Selection", "-", "Refresh", "Properties"
        ]
    );
    assert_eq!(m[8], ContextItem::Item("CRC32".to_string(), FileListIntent::Checksum(ChecksumAlgorithm::Crc32)));
    assert_eq!(m[5], ContextItem::Item("Rename".to_string(), FileListIntent::RenameEntry(None)));
}

#[test]
fn context_menu_for_several_entries() {
    let m = context_menu_items(3, false);
    assert_eq!(
        labels(&m),
        vec![
            "Open", "Extract...", "Test...", "-", "Delete", "-", "CRC32", "MD5", "SHA1", "SHA256", "-", "Select All",
            "Clear Selection", "-"
        ]
    );
}

#[test]
fn keyboard_shortcuts() {
    assert_eq!(shortcut_action("a", true, false, false), Some(Shortcut::SelectAll));
    assert_eq!(shortcut_action("a", true, true, false), None);
    assert_eq!(shortcut_action("n", true, true, false), Some(Shortcut::NewFolder));
    assert_eq!(shortcut_action("n", true, false, false), Some(Shortcut::CreateArchive));
    assert_eq!(shortcut_action("enter", false, false, true), Some(Shortcut::Properties));
    assert_eq!(shortcut_action("enter", false, false, false), Some(Shortcut::OpenEntry));
    assert_eq!(shortcut_action("Delete", false, false, false), Some(Shortcut::Delete));
    assert_eq!(shortcut_action("v", true, false, false), None);
    assert_eq!(shortcut_action("f5", false, false, false), Some(Shortcut::Refresh));
}
