use bit7z_archiver::adapters::archive_vm::{
    filter_rows, level_before, position_of, ArchiveViewModel, CachedEntry, LevelClick, LevelEntry,
    ViewStatus,
};
use bit7z_archiver::adapters::preview_vm::PreviewViewModel;
use bit7z_archiver::application::preview::PreviewData;
use bit7z_archiver::adapters::events::{ArchiveVmEvent, ChecksumAlgorithm};
use bit7z_archiver::domain::archive::{ArchiveEntry, ArchiveHandle, ArchiveIds};
use bit7z_archiver::domain::repository::{ArchiveError, ArchiveProperties};

fn cached(name: &str, path: &str, dir: bool, index: u32, size: u64) -> CachedEntry {
    CachedEntry {
        entry: ArchiveEntry {
            name: name.to_string(),
            path: path.to_string(),
            is_directory: dir,
            original_index: index,
            size,
            ..Default::default()
        },
        ratio_key: 0,
    }
}

fn root_entries() -> Vec<CachedEntry> {
    vec![
        cached("b.txt", "b.txt", false, 2, 30),
        cached("docs", "docs", true, 0, 0),
        cached("A.txt", "A.txt", false, 1, 10),
    ]
}

fn opened() -> ArchiveViewModel {
    let mut vm = ArchiveViewModel::new();
    let mut ids = ArchiveIds::new();
    vm.archive_opened(ArchiveHandle::new_reader(&mut ids), ArchiveProperties::default());
    vm
}

fn names(vm: &ArchiveViewModel) -> Vec<String> {
    vm.displayed_entries().iter().map(|e| e.display_name.clone()).collect()
}

#[test]
fn a_new_browser_is_empty() {
    let vm = ArchiveViewModel::new();
    assert_eq!(vm.status, ViewStatus::Empty);
    assert!(vm.displayed_entries().is_empty());
    assert_eq!(vm.first_selected_index(), None);
    assert!(!vm.request_test());
}

#[test]
fn loading_the_root_shows_directories_first() {
    let mut vm = opened();
    assert!(!vm.show_current_level());
    assert_eq!(vm.status, ViewStatus::Loading);
    assert!(vm.directory_loaded(String::new(), root_entries()));
    assert_eq!(vm.status, ViewStatus::Ready);
    assert_eq!(names(&vm), vec!["docs", "A.txt", "b.txt"]);
    assert_eq!(vm.current_subdirs(), vec!["docs".to_string()]);
}

#[test]
fn a_listing_of_another_directory_is_only_kept() {
    let mut vm = opened();
    assert!(!vm.directory_loaded("docs/".to_string(), vec![cached("x", "docs/x", false, 5, 1)]));
    assert!(vm.displayed_entries().is_empty());
}

#[test]
fn sorting_by_size_and_back() {
    let mut vm = opened();
    vm.directory_loaded(String::new(), root_entries());
    vm.sort_by(1);
    assert_eq!((vm.sort_column, vm.sort_ascending), (1, true));
    assert_eq!(names(&vm), vec!["docs", "A.txt", "b.txt"]);
    vm.sort_by(1);
    assert_eq!((vm.sort_column, vm.sort_ascending), (1, false));
    assert_eq!(names(&vm), vec!["b.txt", "A.txt", "docs"]);
    vm.apply_sort(0, true);
    assert_eq!(names(&vm), vec!["docs", "A.txt", "b.txt"]);
}

#[test]
fn filtering_is_case_insensitive_and_clears_the_selection() {
    let mut vm = opened();
    vm.directory_loaded(String::new(), root_entries());
    vm.update_selection(1, false, false);
    vm.set_filter("B.T");
    assert_eq!(names(&vm), vec!["b.txt"]);
    assert_eq!(vm.first_selected_index(), None);
    vm.set_filter("");
    assert_eq!(vm.displayed_entries().len(), 3);
}

#[test]
fn clicks_select_and_enter() {
    let mut vm = opened();
    vm.directory_loaded(String::new(), root_entries());
    assert_eq!(vm.handle_level_click(1, false, false), LevelClick::SelectionChanged);
    assert!(vm.is_selected(1));
    assert!(vm.request_extract());
    assert_eq!(vm.handle_level_click(2, false, true), LevelClick::SelectionChanged);
    assert!(vm.is_selected(1) && vm.is_selected(2));
    assert_eq!(vm.handle_level_click(9, false, false), LevelClick::Nothing);
    assert_eq!(vm.handle_level_click(0, false, false), LevelClick::EnteredDirectory);
    assert_eq!(vm.current_path, "docs/");
    assert_eq!(vm.first_selected_index(), None);
    assert!(vm.navigate_up());
    assert_eq!(vm.current_path, "");
    assert!(!vm.navigate_up());
}

#[test]
fn shift_click_selects_a_span() {
    let mut vm = opened();
    vm.update_selection(3, false, false);
    vm.update_selection(6, true, false);
    let mut sel = vm.selected_indices();
    sel.sort();
    assert_eq!(sel, vec![3, 4, 5, 6]);
    vm.update_selection(1, true, false);
    let mut sel = vm.selected_indices();
    sel.sort();
    assert_eq!(sel, vec![1, 2, 3]);
}

#[test]
fn select_all_and_invert() {
    let mut vm = opened();
    vm.directory_loaded(String::new(), root_entries());
    vm.select_all();
    let mut sel = vm.selected_indices();
    sel.sort();
    assert_eq!(sel, vec![0, 1, 2]);
    vm.invert_selection();
    assert!(vm.selected_indices().is_empty());
    vm.update_selection(2, false, false);
    vm.invert_selection();
    let mut sel = vm.selected_indices();
    sel.sort();
    assert_eq!(sel, vec![0, 1]);
    vm.clear_selection();
    assert_eq!(vm.first_selected_index(), None);
}

#[test]
fn selected_entries_come_from_the_loaded_listings() {
    let mut vm = opened();
    vm.directory_loaded(String::new(), root_entries());
    vm.update_selection(2, false, false);
    let sel = vm.selected_entries();
    assert_eq!(sel.len(), 1);
    assert_eq!(sel[0].name, "b.txt");
}

#[test]
fn a_failed_listing_goes_back() {
    let mut vm = opened();
    vm.navigate_into("docs");
    vm.navigate_into("inner");
    vm.directory_load_failed("bad".to_string());
    assert_eq!(vm.current_path, "docs/");
    assert_eq!(vm.status, ViewStatus::Error("bad".to_string()));
    vm.navigate_root();
    assert_eq!(vm.current_path, "");
    vm.directory_load_failed("again".to_string());
    assert_eq!(vm.current_path, "");
}

#[test]
fn refresh_forgets_the_current_listing() {
    let mut vm = ArchiveViewModel::new();
    assert!(!vm.refresh());
    let mut vm = opened();
    vm.directory_loaded(String::new(), root_entries());
    assert!(vm.refresh());
    assert!(!vm.show_current_level());
}

#[test]
fn close_gives_back_the_handle() {
    let mut vm = opened();
    vm.directory_loaded(String::new(), root_entries());
    let id = vm.archive.as_ref().unwrap().id();
    let h = vm.close();
    assert_eq!(h.unwrap().id(), id);
    assert_eq!(vm.status, ViewStatus::Empty);
    assert!(vm.displayed_entries().is_empty());
    assert!(vm.close().is_none());
}

#[test]
fn open_status_changes() {
    let mut vm = ArchiveViewModel::new();
    vm.open_started();
    assert_eq!(vm.status, ViewStatus::Loading);
    vm.open_failed("nope".to_string());
    assert_eq!(vm.status, ViewStatus::Error("nope".to_string()));
}

#[test]
fn row_order_and_filter_helpers() {
    let dir = LevelEntry {
        display_name: "z".to_string(),
        is_directory: true,
        original_index: 0,
        size: 0,
        compressed_size: 0,
        modified: None,
        ratio_key: 0,
    };
    let file = LevelEntry { display_name: "a".to_string(), is_directory: false, ..dir.clone() };
    assert!(level_before(&dir, &file, 0, true));
    assert!(level_before(&file, &dir, 0, false));
    let rows = filter_rows(&root_entries(), "TXT");
    assert_eq!(rows.len(), 2);
    assert_eq!(position_of(&vec![4, 7, 9], 7), Some(1));
    assert_eq!(position_of(&vec![4, 7, 9], 8), None);
}

#[test]
fn jobs_need_a_ready_listing() {
    let vm = ArchiveViewModel::new();
    assert!(vm.plan_delete().is_none());
    assert!(vm.plan_add(2).is_none());
    assert!(vm.plan_test().is_none());
    assert!(vm.plan_checksum(ChecksumAlgorithm::Md5).is_none());
    assert_eq!(vm.entry_target(), None);
}

#[test]
fn job_plans_of_a_ready_listing() {
    let mut vm = opened();
    vm.directory_loaded(String::new(), root_entries());
    assert!(vm.plan_delete().is_none());
    assert!(vm.plan_add(0).is_none());
    let add = vm.plan_add(3).unwrap();
    assert_eq!(add.message, "Adding 3 files...");
    assert_eq!(add.total, 3);
    assert!(matches!(add.event, ArchiveVmEvent::RequestAddFiles));
    let test_all = vm.plan_test().unwrap();
    assert_eq!(test_all.indices, None);
    assert_eq!(test_all.message, "Testing archive...");

    vm.update_selection(1, false, false);
    vm.update_selection(2, false, true);
    let del = vm.plan_delete().unwrap();
    let mut idx = del.indices.clone().unwrap();
    idx.sort();
    assert_eq!(idx, vec![1, 2]);
    assert_eq!(del.message, "Deleting 2 entries...");
    assert!(matches!(del.event, ArchiveVmEvent::RequestDelete));
    let test_sel = vm.plan_test().unwrap();
    assert_eq!(test_sel.total, 2);
    assert!(matches!(test_sel.event, ArchiveVmEvent::RequestTestEntries { selected_only: true }));
    let sum = vm.plan_checksum(ChecksumAlgorithm::Sha256).unwrap();
    assert_eq!(sum.message, "Calculating SHA256...");
    assert!(matches!(sum.event, ArchiveVmEvent::RequestChecksum { algorithm: ChecksumAlgorithm::Sha256 }));
    let t = vm.entry_target().unwrap();
    assert!(t == 1 || t == 2);
}

#[test]
fn a_refused_open_asks_for_a_password_or_shows_the_error() {
    let mut vm = ArchiveViewModel::new();
    vm.open_started();
    let ask = vm.open_refused("x.7z".to_string(), &ArchiveError::EncryptedArchiveRequiresPassword);
    assert_eq!(ask, Some("x.7z".to_string()));
    assert_eq!(vm.status, ViewStatus::Empty);
    let ask = vm.open_refused("x.7z".to_string(), &ArchiveError::NotFound("x.7z".into()));
    assert_eq!(ask, None);
    assert_eq!(vm.status, ViewStatus::Error("File not found: x.7z".to_string()));
}

#[test]
fn preview_panel_follows_a_read() {
    let mut p = PreviewViewModel::new(65536);
    assert!(p.data.is_none() && !p.is_loading);
    p.start_load();
    assert!(p.is_loading);
    p.finish_load(Ok(PreviewData::Text("hi".to_string())));
    assert!(!p.is_loading);
    assert_eq!(p.data, Some(PreviewData::Text("hi".to_string())));
    p.start_load();
    assert_eq!(p.data, Some(PreviewData::Text("hi".to_string())));
    p.finish_load(Err(ArchiveError::UnsupportedFormat));
    assert!(p.data.is_none() && !p.is_loading);
    p.finish_load(Ok(PreviewData::Hex(vec![1, 2])));
    p.clear();
    assert!(p.data.is_none() && !p.is_loading);
    assert_eq!(p.max_bytes, 65536);
}
