//! The menus: which menu bar actions can be used, and what the entry list's
//! context menu offers.
use crate::adapters::events::ChecksumAlgorithm;
use vstd::prelude::*;
use vstd::string::*;

verus! {

broadcast use vstd::string::group_string_axioms;

/// The actions of the menu bar.
#[derive(Debug, Clone, Copy, PartialEq, Eq, Structural)]
pub enum MenuAction {
    OpenArchive,
    CreateArchive,
    AddFiles,
    TestSelected,
    TestAll,
    CloseArchive,
    ShowProperties,
    SelectAll,
    InvertSelection,
    DeleteSelected,
    RenameSelected,
    ChecksumCrc32,
    ChecksumMd5,
    ChecksumSha1,
    ChecksumSha256,
    ShowSettings,
    About,
}

/// Whether a menu bar action can be used: opening, creating, the settings
/// and "About" always; the actions on the selection (testing it, deleting,
/// renaming, checksums) where something is selected; the others where an
/// archive is open.
pub open spec fn action_allowed(action: MenuAction, is_open: bool, has_selection: bool) -> bool {
    match action {
        MenuAction::OpenArchive | MenuAction::CreateArchive | MenuAction::ShowSettings | MenuAction::About => true,
        MenuAction::TestSelected | MenuAction::DeleteSelected | MenuAction::RenameSelected | MenuAction::ChecksumCrc32
        | MenuAction::ChecksumMd5 | MenuAction::ChecksumSha1 | MenuAction::ChecksumSha256 => has_selection,
        _ => is_open,
    }
}

pub fn action_enabled(action: MenuAction, is_open: bool, has_selection: bool) -> (r: bool)
    ensures
        r == action_allowed(action, is_open, has_selection),
{
    match action {
        MenuAction::OpenArchive | MenuAction::CreateArchive | MenuAction::ShowSettings | MenuAction::About => true,
        MenuAction::TestSelected | MenuAction::DeleteSelected | MenuAction::RenameSelected | MenuAction::ChecksumCrc32
        | MenuAction::ChecksumMd5 | MenuAction::ChecksumSha1 | MenuAction::ChecksumSha256 => has_selection,
        _ => is_open,
    }
}

/// What the entry list asks of the window.
#[derive(Debug, Clone, PartialEq)]
pub enum FileListIntent {
    SelectionChanged(Vec<u32>),
    SortByColumn(u32, bool),
    NavigateUp,
    OpenEntry,
    PreviewEntry,
    ExtractSelected,
    TestSelected,
    RenameEntry(Option<u32>),
    DeleteSelected,
    Checksum(ChecksumAlgorithm),
    SelectAll,
    ClearSelection,
    Refresh,
    ShowProperties,
}

/// A line of the context menu: a separator, or a labelled item.
#[derive(Debug, Clone, PartialEq)]
pub enum ContextItem {
    Separator,
    Item(String, FileListIntent),
}

/// The model of a context menu line: `None` for a separator.
pub open spec fn context_view(c: ContextItem) -> Option<(Seq<char>, FileListIntent)> {
    match c {
        ContextItem::Separator => None,
        ContextItem::Item(label, intent) => Some((label@, intent)),
    }
}

/// An item where `shown`, nothing otherwise.
pub open spec fn item_if(shown: bool, label: Seq<char>, intent: FileListIntent) -> Seq<
    Option<(Seq<char>, FileListIntent)>,
> {
    if shown {
        seq![Some((label, intent))]
    } else {
        Seq::empty()
    }
}

/// The items on the selection: open, preview (one entry), extract, test,
/// rename (one entry), delete, and the four checksums.
pub open spec fn selection_items(single: bool) -> Seq<Option<(Seq<char>, FileListIntent)>> {
    seq![Some(("Open"@, FileListIntent::OpenEntry))] + item_if(single, "Preview"@, FileListIntent::PreviewEntry)
        + seq![
        Some(("Extract..."@, FileListIntent::ExtractSelected)),
        Some(("Test..."@, FileListIntent::TestSelected)),
        None,
    ] + item_if(single, "Rename"@, FileListIntent::RenameEntry(None)) + seq![
        Some(("Delete"@, FileListIntent::DeleteSelected)),
        None,
        Some(("CRC32"@, FileListIntent::Checksum(ChecksumAlgorithm::Crc32))),
        Some(("MD5"@, FileListIntent::Checksum(ChecksumAlgorithm::Md5))),
        Some(("SHA1"@, FileListIntent::Checksum(ChecksumAlgorithm::Sha1))),
        Some(("SHA256"@, FileListIntent::Checksum(ChecksumAlgorithm::Sha256))),
    ]
}

/// The context menu of the entry list for `selected` selected entries:
/// the items on the selection where there is one, then selecting all,
/// clearing (with a selection), refreshing (when the listing is ready) and
/// the properties (of a single entry).
pub open spec fn context_menu(selected: nat, ready: bool) -> Seq<Option<(Seq<char>, FileListIntent)>> {
    (if selected > 0 {
        selection_items(selected == 1)
    } else {
        Seq::empty()
    }) + seq![None, Some(("Select All"@, FileListIntent::SelectAll))] + item_if(
        selected > 0,
        "Clear Selection"@,
        FileListIntent::ClearSelection,
    ) + seq![None] + item_if(ready, "Refresh"@, FileListIntent::Refresh) + item_if(
        selected == 1,
        "Properties"@,
        FileListIntent::ShowProperties,
    )
}

fn push_item(items: &mut Vec<ContextItem>, label: &str, intent: FileListIntent)
    ensures
        final(items)@.map_values(|c: ContextItem| context_view(c)) == old(items)@.map_values(
            |c: ContextItem| context_view(c),
        ).push(Some((label@, intent))),
{
    let ghost i = intent;
    items.push(ContextItem::Item(String::from_str(label), intent));
    assert(items@.map_values(|c: ContextItem| context_view(c)) =~= old(items)@.map_values(
        |c: ContextItem| context_view(c),
    ).push(Some((label@, i))));
}

fn push_separator(items: &mut Vec<ContextItem>)
    ensures
        final(items)@.map_values(|c: ContextItem| context_view(c)) == old(items)@.map_values(
            |c: ContextItem| context_view(c),
        ).push(None),
{
    items.push(ContextItem::Separator);
    assert(items@.map_values(|c: ContextItem| context_view(c)) =~= old(items)@.map_values(
        |c: ContextItem| context_view(c),
    ).push(None));
}

/// The context menu of the entry list (see `context_menu`).
pub fn context_menu_items(selected: usize, ready: bool) -> (r: Vec<ContextItem>)
    ensures
        r@.map_values(|c: ContextItem| context_view(c)) == context_menu(selected as nat, ready),
{
    let mut m: Vec<ContextItem> = Vec::new();
    let single = selected == 1;
    if selected > 0 {
        push_item(&mut m, "Open", FileListIntent::OpenEntry);
        if single {
            push_item(&mut m, "Preview", FileListIntent::PreviewEntry);
        }
        push_item(&mut m, "Extract...", FileListIntent::ExtractSelected);
        push_item(&mut m, "Test...", FileListIntent::TestSelected);
        push_separator(&mut m);
        if single {
            push_item(&mut m, "Rename", FileListIntent::RenameEntry(None));
        }
        push_item(&mut m, "Delete", FileListIntent::DeleteSelected);
        push_separator(&mut m);
        push_item(&mut m, "CRC32", FileListIntent::Checksum(ChecksumAlgorithm::Crc32));
        push_item(&mut m, "MD5", FileListIntent::Checksum(ChecksumAlgorithm::Md5));
        push_item(&mut m, "SHA1", FileListIntent::Checksum(ChecksumAlgorithm::Sha1));
        push_item(&mut m, "SHA256", FileListIntent::Checksum(ChecksumAlgorithm::Sha256));
        assert(m@.map_values(|c: ContextItem| context_view(c)) =~= selection_items(single));
    } else {
        assert(m@.map_values(|c: ContextItem| context_view(c)) =~= Seq::<Option<(Seq<char>, FileListIntent)>>::empty());
    }
    push_separator(&mut m);
    push_item(&mut m, "Select All", FileListIntent::SelectAll);
    if selected > 0 {
        push_item(&mut m, "Clear Selection", FileListIntent::ClearSelection);
    }
    push_separator(&mut m);
    if ready {
        push_item(&mut m, "Refresh", FileListIntent::Refresh);
    }
    if single {
        push_item(&mut m, "Properties", FileListIntent::ShowProperties);
    }
    assert(m@.map_values(|c: ContextItem| context_view(c)) =~= context_menu(selected as nat, ready));
    m
}

/// What a key pressed in the main window asks for.
#[derive(Debug, Clone, Copy, PartialEq, Eq, Structural)]
pub enum Shortcut {
    SelectAll,
    OpenArchive,
    NewFolder,
    CreateArchive,
    Extract,
    Test,
    Refresh,
    NewFile,
    Rename,
    Properties,
    OpenEntry,
    Delete,
}

/// The keyboard shortcuts of the main window. `command` is the platform's
/// command key or control. Ctrl+A selects all and Ctrl+O opens (both
/// without shift); Ctrl+Shift+N makes a folder and Ctrl+N an archive;
/// Ctrl+E extracts and Ctrl+T tests; F5 refreshes, F4 makes a new file, F2
/// renames; Alt+Enter shows properties and Enter opens the entry;
/// Backspace and Delete delete. Every other key (Ctrl+V among them, since
/// the preview follows the selection) does nothing.
pub open spec fn shortcut_of(key: Seq<char>, command: bool, shift: bool, alt: bool) -> Option<Shortcut> {
    if key == "a"@ && command && !shift {
        Some(Shortcut::SelectAll)
    } else if key == "o"@ && command && !shift {
        Some(Shortcut::OpenArchive)
    } else if key == "n"@ && command && shift {
        Some(Shortcut::NewFolder)
    } else if key == "n"@ && command {
        Some(Shortcut::CreateArchive)
    } else if key == "e"@ && command {
        Some(Shortcut::Extract)
    } else if key == "t"@ && command {
        Some(Shortcut::Test)
    } else if key == "f5"@ {
        Some(Shortcut::Refresh)
    } else if key == "f4"@ {
        Some(Shortcut::NewFile)
    } else if key == "f2"@ {
        Some(Shortcut::Rename)
    } else if key == "enter"@ && alt {
        Some(Shortcut::Properties)
    } else if key == "enter"@ {
        Some(Shortcut::OpenEntry)
    } else if key == "Backspace"@ || key == "Delete"@ {
        Some(Shortcut::Delete)
    } else {
        None
    }
}

/// What the key `key` asks for (see `shortcut_of`).
pub fn shortcut_action(key: &str, command: bool, shift: bool, alt: bool) -> (r: Option<Shortcut>)
    ensures
        r == shortcut_of(key@, command, shift, alt),
{
    let k = String::from_str(key);
    if k == String::from_str("a") && command && !shift {
        Some(Shortcut::SelectAll)
    } else if k == String::from_str("o") && command && !shift {
        Some(Shortcut::OpenArchive)
    } else if k == String::from_str("n") && command && shift {
        Some(Shortcut::NewFolder)
    } else if k == String::from_str("n") && command {
        Some(Shortcut::CreateArchive)
    } else if k == String::from_str("e") && command {
        Some(Shortcut::Extract)
    } else if k == String::from_str("t") && command {
        Some(Shortcut::Test)
    } else if k == String::from_str("f5") {
        Some(Shortcut::Refresh)
    } else if k == String::from_str("f4") {
        Some(Shortcut::NewFile)
    } else if k == String::from_str("f2") {
        Some(Shortcut::Rename)
    } else if k == String::from_str("enter") && alt {
        Some(Shortcut::Properties)
    } else if k == String::from_str("enter") {
        Some(Shortcut::OpenEntry)
    } else if k == String::from_str("Backspace") || k == String::from_str("Delete") {
        Some(Shortcut::Delete)
    } else {
        None
    }
}

} // verus!
