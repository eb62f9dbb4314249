use bit7z_archiver::application::add_to::AddToArchiveUseCase;
use bit7z_archiver::application::delete::DeleteEntriesUseCase;
use bit7z_archiver::application::extract::ExtractEntriesUseCase;
use bit7z_archiver::application::new_file::{add_edited_file, file_was_modified};
use bit7z_archiver::application::new_folder::{folder_entry_path, new_folder};
use bit7z_archiver::application::open::OpenArchiveUseCase;
use bit7z_archiver::application::open_entry::{check_openable, OpenEntryUseCase};
use bit7z_archiver::application::preview::{PreviewData, PreviewEntryUseCase};
use bit7z_archiver::application::rename::RenameEntryUseCase;
use bit7z_archiver::application::test::{TestArchiveUseCase, TestEntriesUseCase};
use bit7z_archiver::adapters::root_controller::{NoProgress, RootController};
use bit7z_archiver::domain::archive::{
    ArchiveEntry, ArchiveFormat, ArchiveHandle, ArchiveIds, EncryptionConfig, Page, Password,
    TestFailure, TestFailureReason, TestResult,
};
use bit7z_archiver::domain::repository::{
    ArchiveError, ArchiveProperties, ArchiveRepository, ProgressNotifier, ProgressUpdate,
};
use std::cell::RefCell;
use std::rc::Rc;

/// An in-memory repository whose entries and answers the tests choose.
#[derive(Clone)]
struct MockRepo {
    entries: RefCell<Vec<ArchiveEntry>>,
    test_result: TestResult,
    buffer: Option<Vec<u8>>,
    fail_extract: bool,
    fail_test: bool,
    not_found_on_open: bool,
    fill_buffers: bool,
    added_paths: Rc<RefCell<Vec<String>>>,
}

impl MockRepo {
    fn with_count(n: usize) -> Self {
        let entries: Vec<ArchiveEntry> = (0..n)
            .map(|i| ArchiveEntry {
                name: format!("file_{}.txt", i),
                path: format!("file_{}.txt", i),
                size: 100,
                compressed_size: 50,
                crc: Some(i as u32),
                original_index: i as u32,
                ..Default::default()
            })
            .collect();
        MockRepo {
            entries: RefCell::new(entries),
            test_result: TestResult { total: n, passed: n, failed: vec![] },
            buffer: None,
            fail_extract: false,
            fail_test: false,
            not_found_on_open: false,
            fill_buffers: false,
            added_paths: Rc::new(RefCell::new(vec![])),
        }
    }

    fn new(entries: Vec<ArchiveEntry>) -> Self {
        let mut m = MockRepo::with_count(0);
        m.entries = RefCell::new(entries);
        m
    }
}

impl ArchiveRepository for MockRepo {
    fn open(&self, path: &str, _password: Option<&Password>) -> Result<ArchiveHandle, ArchiveError> {
        if self.not_found_on_open {
            return Err(ArchiveError::NotFound(path.to_string()));
        }
        let mut ids = ArchiveIds::new();
        Ok(ArchiveHandle::new_reader(&mut ids))
    }

    fn create(
        &self,
        path: &str,
        _format: ArchiveFormat,
        _encryption: Option<&EncryptionConfig>,
    ) -> Result<ArchiveHandle, ArchiveError> {
        let mut ids = ArchiveIds::new();
        Ok(ArchiveHandle::new_writer(&mut ids).with_path(path.to_string()))
    }

    fn list_page(&self, _archive: &ArchiveHandle, offset: usize, limit: usize) -> Result<Page<ArchiveEntry>, ArchiveError> {
        let entries = self.entries.borrow();
        let items: Vec<ArchiveEntry> = entries.iter().skip(offset).take(limit).cloned().collect();
        Ok(Page::new(items, offset, Some(entries.len())))
    }

    fn get_properties(&self, _archive: &ArchiveHandle) -> Result<ArchiveProperties, ArchiveError> {
        let entries = self.entries.borrow();
        let files = entries.iter().filter(|e| !e.is_directory).count() as u32;
        let folders = entries.iter().filter(|e| e.is_directory).count() as u32;
        Ok(ArchiveProperties {
            items_count: entries.len() as u32,
            folders_count: folders,
            files_count: files,
            total_size: entries.iter().map(|e| e.size).sum(),
            packed_size: entries.iter().map(|e| e.compressed_size).sum(),
            ..Default::default()
        })
    }

    fn extract(&self, _archive: &ArchiveHandle, _indices: &[u32], _dest: &str) -> Result<(), ArchiveError> {
        if self.fail_extract {
            Err(ArchiveError::Internal("extract failed".to_string()))
        } else {
            Ok(())
        }
    }

    fn extract_to_buffer(&self, _archive: &ArchiveHandle, index: u32) -> Result<Vec<u8>, ArchiveError> {
        if self.fill_buffers {
            let entries = self.entries.borrow();
            let entry = entries
                .iter()
                .find(|e| e.original_index == index)
                .ok_or_else(|| ArchiveError::NotFound(format!("index {}", index)))?;
            return Ok(fill_data(index, entry.size));
        }
        match &self.buffer {
            Some(b) => Ok(b.clone()),
            None => Err(ArchiveError::Internal("buffer error".to_string())),
        }
    }

    fn add(&self, _archive: &mut ArchiveHandle, files: &[String], _password: Option<&Password>) -> Result<(), ArchiveError> {
        for f in files {
            self.added_paths.borrow_mut().push(f.clone());
        }
        Ok(())
    }

    fn delete(&self, _archive: &mut ArchiveHandle, indices: &[u32]) -> Result<(), ArchiveError> {
        let mut entries = self.entries.borrow_mut();
        entries.retain(|e| !indices.contains(&e.original_index));
        Ok(())
    }

    fn rename(&self, _archive: &mut ArchiveHandle, index: u32, new_name: &str) -> Result<(), ArchiveError> {
        let mut entries = self.entries.borrow_mut();
        match entries.iter_mut().find(|e| e.original_index == index) {
            Some(e) => {
                e.name = new_name.to_string();
                Ok(())
            }
            None => Err(ArchiveError::NotFound(format!("index {}", index))),
        }
    }

    fn test(&self, _archive: &ArchiveHandle) -> Result<TestResult, ArchiveError> {
        if self.fail_test {
            Err(ArchiveError::Internal("test failed".to_string()))
        } else {
            Ok(self.test_result.clone())
        }
    }

    fn close(&self, _archive: ArchiveHandle) {}

    fn list_directory(&self, _archive: &ArchiveHandle, path: &str) -> Result<Vec<ArchiveEntry>, ArchiveError> {
        let entries = self.entries.borrow();
        Ok(entries
            .iter()
            .filter(|e| {
                e.path.starts_with(path)
                    && e.path.len() > path.len()
                    && !e.path[path.len()..].trim_end_matches('/').contains('/')
            })
            .cloned()
            .collect())
    }

    fn add_file_to_path(
        &self,
        _archive: &mut ArchiveHandle,
        _file_path: &str,
        archive_path: &str,
        _password: Option<&Password>,
    ) -> Result<(), ArchiveError> {
        self.added_paths.borrow_mut().push(archive_path.to_string());
        Ok(())
    }
}

/// The data that the mock gives back for an entry: its size in bytes (at
/// least one), each the index times 17.
fn fill_data(index: u32, size: u64) -> Vec<u8> {
    vec![(index as u8).wrapping_mul(17); (size as usize).max(1)]
}

fn reader() -> ArchiveHandle {
    let mut ids = ArchiveIds::new();
    ArchiveHandle::new_reader(&mut ids)
}

fn writer(path: &str) -> ArchiveHandle {
    let mut ids = ArchiveIds::new();
    ArchiveHandle::new_writer(&mut ids).with_path(path.to_string())
}

fn repo_with_buffer(data: Vec<u8>) -> MockRepo {
    let mut m = MockRepo::with_count(0);
    m.buffer = Some(data);
    m
}

#[test]
fn test_open_archive_success() {
    let uc = OpenArchiveUseCase::new(MockRepo::with_count(3));
    let result = uc.execute("test.7z", None);
    assert!(result.is_ok());
    let output = result.unwrap();
    assert_eq!(output.properties.items_count, 3);
}

#[test]
fn test_open_archive_not_found() {
    let mut repo = MockRepo::with_count(0);
    repo.not_found_on_open = true;
    let uc = OpenArchiveUseCase::new(repo);
    let result = uc.execute("missing.7z", None);
    assert!(matches!(result, Err(ArchiveError::NotFound(_))));
}

#[test]
fn test_open_entry_directory_returns_error() {
    let mock = MockRepo::new(vec![ArchiveEntry {
        name: "mydir".into(),
        path: "mydir".into(),
        is_directory: true,
        original_index: 0,
        ..Default::default()
    }]);
    let uc = OpenEntryUseCase::new(mock);
    let handle = reader();
    let result = uc.execute(&handle, 0, "tmp");
    assert!(matches!(result, Err(ArchiveError::Internal(ref msg)) if msg.contains("directory")));
}

#[test]
fn test_open_entry_not_found() {
    let uc = OpenEntryUseCase::new(MockRepo::with_count(3));
    let handle = reader();
    let result = uc.execute(&handle, 99, "tmp");
    assert!(matches!(result, Err(ArchiveError::NotFound(_))));
}

#[test]
fn open_entry_extracts_into_the_temp_directory() {
    let uc = OpenEntryUseCase::new(MockRepo::with_count(3));
    let handle = reader();
    let path = uc.execute(&handle, 1, "tmp").unwrap();
    assert_eq!(path, std::path::Path::new("tmp").join("file_1.txt").to_string_lossy());
}

#[test]
fn open_entry_reports_the_missing_index() {
    let r = check_openable(&[], 7);
    assert!(matches!(r, Err(ArchiveError::NotFound(ref m)) if m == "index 7"));
}

#[test]
fn test_preview_text() {
    let uc = PreviewEntryUseCase::new(repo_with_buffer(b"hello world".to_vec()));
    let handle = reader();
    let result = uc.execute(&handle, 0, 4096).unwrap();
    assert!(matches!(result, PreviewData::Text(ref t) if t == "hello world"));
}

#[test]
fn test_preview_hex_fallback() {
    let uc = PreviewEntryUseCase::new(repo_with_buffer(b"\x00\x01\x02\xFF\xFE".to_vec()));
    let handle = reader();
    let result = uc.execute(&handle, 0, 4096).unwrap();
    assert!(matches!(result, PreviewData::Hex(_)));
}

#[test]
fn test_preview_image_png() {
    let png_header = b"\x89PNG\x0D\x0A\x1A\x0Amore data";
    let uc = PreviewEntryUseCase::new(repo_with_buffer(png_header.to_vec()));
    let handle = reader();
    let result = uc.execute(&handle, 0, 4096).unwrap();
    assert!(matches!(result, PreviewData::Image(_)));
}

#[test]
fn test_preview_image_jpeg() {
    let jpeg_header = b"\xFF\xD8\xFF\xE0more data";
    let uc = PreviewEntryUseCase::new(repo_with_buffer(jpeg_header.to_vec()));
    let handle = reader();
    let result = uc.execute(&handle, 0, 4096).unwrap();
    assert!(matches!(result, PreviewData::Image(_)));
}

#[test]
fn test_preview_truncation() {
    let data = b"short data";
    let uc = PreviewEntryUseCase::new(repo_with_buffer(data.to_vec()));
    let handle = reader();
    let result = uc.execute(&handle, 0, 5).unwrap();
    match result {
        PreviewData::Text(t) => assert_eq!(t.len(), 5),
        _ => panic!("expected Text"),
    }
}

#[test]
fn test_preview_extract_error_propagated() {
    let uc = PreviewEntryUseCase::new(MockRepo::with_count(0));
    let handle = reader();
    let result = uc.execute(&handle, 0, 4096);
    assert!(result.is_err());
}

#[test]
fn test_test_archive_all_passed() {
    let mut mock = MockRepo::with_count(5);
    mock.test_result = TestResult { total: 5, passed: 5, failed: vec![] };
    let uc = TestArchiveUseCase::new(mock);
    let handle = reader();
    let res = uc.execute(&handle).unwrap();
    assert_eq!(res.total, 5);
    assert_eq!(res.passed, 5);
    assert!(res.failed.is_empty());
}

#[test]
fn test_test_archive_some_failed() {
    let failures = vec![TestFailure {
        entry_path: "bad.txt".into(),
        error: "CRC mismatch".into(),
        index: 1,
        path: "bad.txt".into(),
        reason: TestFailureReason::CrcMismatch { expected: 0x1234, actual: 0x5678 },
    }];
    let mut mock = MockRepo::with_count(3);
    mock.test_result = TestResult { total: 3, passed: 2, failed: failures };
    let uc = TestArchiveUseCase::new(mock);
    let handle = reader();
    let res = uc.execute(&handle).unwrap();
    assert_eq!(res.total, 3);
    assert_eq!(res.passed, 2);
    assert_eq!(res.failed.len(), 1);
}

#[test]
fn test_test_archive_error_propagated() {
    let mut mock = MockRepo::with_count(0);
    mock.fail_test = true;
    let uc = TestArchiveUseCase::new(mock);
    let handle = reader();
    let result = uc.execute(&handle);
    assert!(matches!(result, Err(ArchiveError::Internal(ref msg)) if msg == "test failed"));
}

#[test]
fn test_extract_success() {
    let uc = ExtractEntriesUseCase::new(MockRepo::with_count(5));
    let handle = reader();
    let result = uc.execute(&handle, &[0, 1], r"C:\dest");
    assert!(result.is_ok());
}

#[test]
fn test_extract_invalid_index_returns_error() {
    let mut mock = MockRepo::with_count(0);
    mock.fail_extract = true;
    let uc = ExtractEntriesUseCase::new(mock);
    let handle = reader();
    let result = uc.execute(&handle, &[999], r"C:\dest");
    assert!(result.is_err());
}

#[test]
fn test_delete_success() {
    let uc = DeleteEntriesUseCase::new(MockRepo::with_count(5));
    let mut handle = reader();
    let result = uc.execute(&mut handle, &[0, 1]);
    assert!(result.is_ok());
}

#[test]
fn test_rename_success() {
    let uc = RenameEntryUseCase::new(MockRepo::with_count(3));
    let mut handle = reader();
    let result = uc.execute(&mut handle, 0, "new_name.txt");
    assert!(result.is_ok());
}

#[test]
fn test_add_to_archive_success() {
    let uc = AddToArchiveUseCase::new(MockRepo::with_count(0));
    let mut handle = writer("test.7z");
    let files = vec!["add_to_test_file.txt".to_string()];
    let result = uc.execute(&mut handle, &files, &[true]);
    assert!(result.is_ok());
}

#[test]
fn test_add_to_archive_file_not_found() {
    let uc = AddToArchiveUseCase::new(MockRepo::with_count(0));
    let mut handle = writer("test.7z");
    let files = vec![r"Z:\nonexistent\file.txt".to_string()];
    let result = uc.execute(&mut handle, &files, &[false]);
    assert!(matches!(result, Err(ArchiveError::NotFound(_))));
}

#[test]
fn add_to_reports_the_first_missing_file() {
    let uc = AddToArchiveUseCase::new(MockRepo::with_count(0));
    let mut handle = writer("test.7z");
    let files = vec!["a.txt".to_string(), "b.txt".to_string(), "c.txt".to_string()];
    let result = uc.execute(&mut handle, &files, &[true, false, false]);
    assert!(matches!(result, Err(ArchiveError::NotFound(ref p)) if p == "b.txt"));
}

#[test]
fn test_new_folder_success() {
    let repo = MockRepo::with_count(0);
    let mut handle = reader();
    let result = new_folder(&repo, &mut handle, "newdir", "keep", None);
    assert!(result.is_ok());
    assert_eq!(repo.added_paths.borrow().as_slice(), &["newdir/.bit7z_keep".to_string()]);
}

#[test]
fn test_new_folder_empty_path() {
    let repo = MockRepo::with_count(0);
    let mut handle = reader();
    let result = new_folder(&repo, &mut handle, "", "keep", None);
    assert!(matches!(result, Err(ArchiveError::Internal(ref msg)) if msg.contains("empty")));
    assert!(repo.added_paths.borrow().is_empty());
}

#[test]
fn test_new_folder_nested() {
    let repo = MockRepo::with_count(0);
    let mut handle = reader();
    let result = new_folder(&repo, &mut handle, "parent/child", "keep", None);
    assert!(result.is_ok());
    assert_eq!(repo.added_paths.borrow().as_slice(), &["parent/child/.bit7z_keep".to_string()]);
}

#[test]
fn test_new_folder_trim_trailing_slash() {
    let repo = MockRepo::with_count(0);
    let mut handle = reader();
    let result = new_folder(&repo, &mut handle, "mydir/", "keep", None);
    assert!(result.is_ok());
    assert_eq!(repo.added_paths.borrow().as_slice(), &["mydir/.bit7z_keep".to_string()]);
}

#[test]
fn folder_entry_path_trims_both_separators() {
    assert_eq!(folder_entry_path("a\\b//").unwrap(), "a\\b/.bit7z_keep");
    assert!(matches!(folder_entry_path("///"), Err(ArchiveError::Internal(_))));
}

fn tree_repo() -> MockRepo {
    let e = |name: &str, path: &str, dir: bool, index: u32, size: u64, good: bool| {
        let crc = if dir {
            None
        } else if good {
            Some(crc32fast::hash(&fill_data(index, size)))
        } else {
            Some(0xdeadbeef)
        };
        ArchiveEntry {
            name: name.to_string(),
            path: path.to_string(),
            is_directory: dir,
            original_index: index,
            size,
            crc,
            ..Default::default()
        }
    };
    let entries = vec![
        e("top.txt", "top.txt", false, 0, 8, true),
        e("dir", "dir", true, 1, 0, true),
        e("a.bin", "dir/a.bin", false, 2, 16, true),
        e("b.bin", "dir/b.bin", false, 3, 4, false),
        e("empty", "empty", true, 4, 0, true),
    ];
    let mut m = MockRepo::new(entries);
    m.fill_buffers = true;
    m
}

#[test]
fn testing_entries_checks_each_crc() {
    let uc = TestEntriesUseCase::new(tree_repo());
    let handle = reader();
    let r = uc.execute::<NoProgress>(&handle, None, None).unwrap();
    // the directory "dir" is replaced by its two files; "empty" stays
    assert_eq!(r.total, 4);
    assert_eq!(r.passed, 3);
    assert_eq!(r.failed.len(), 1);
    assert_eq!(r.failed[0].index, 3);
    assert_eq!(r.failed[0].entry_path, "dir/b.bin");
    let actual = crc32fast::hash(&fill_data(3, 4));
    assert_eq!(r.failed[0].error, format!("CRC mismatch: expected deadbeef, got {:08x}", actual));
    assert!(matches!(
        r.failed[0].reason,
        TestFailureReason::CrcMismatch { expected: 0xdeadbeef, actual: a } if a == actual
    ));
}

#[test]
fn testing_a_directory_tests_the_files_below_it() {
    let uc = TestEntriesUseCase::new(tree_repo());
    let handle = reader();
    let r = uc.execute::<NoProgress>(&handle, Some(&[1, 1]), None).unwrap();
    assert_eq!(r.total, 2);
    assert_eq!(r.passed, 1);
    assert_eq!(r.failed[0].index, 3);
    let r = uc.execute::<NoProgress>(&handle, Some(&[4]), None).unwrap();
    assert_eq!((r.total, r.passed), (1, 1));
    let r = uc.execute::<NoProgress>(&handle, Some(&[]), None).unwrap();
    assert_eq!(r.total, 0);
}

#[test]
fn testing_a_missing_entry_is_a_read_failure() {
    let uc = TestEntriesUseCase::new(tree_repo());
    let handle = reader();
    let r = uc.execute::<NoProgress>(&handle, Some(&[9]), None).unwrap();
    assert_eq!(r.total, 1);
    assert_eq!(r.failed[0].entry_path, "index 9");
    assert_eq!(r.failed[0].error, "entry not found");
}

#[test]
fn the_controller_opens_and_previews() {
    let c = RootController::new(repo_with_buffer(b"plain".to_vec()));
    let out = c.open_archive("x.7z", None).unwrap();
    let p = c.preview_entry(&out.handle, 0, 100).unwrap();
    assert!(matches!(p, PreviewData::Text(ref t) if t == "plain"));
    let r = c.test_entries(&out.handle, Some(&[])).unwrap();
    assert_eq!(r.total, 0);
}

#[test]
fn an_edited_file_is_added_only_when_modified() {
    let repo = MockRepo::with_count(0);
    let mut handle = writer("t.7z");
    assert!(add_edited_file(repo.clone(), &mut handle, "/tmp/new_file.txt".to_string(), 0, 5, 0, 5).is_ok());
    assert!(repo.added_paths.borrow().is_empty());
    assert!(add_edited_file(repo.clone(), &mut handle, "/tmp/new_file.txt".to_string(), 0, 5, 12, 9).is_ok());
    assert_eq!(repo.added_paths.borrow().as_slice(), &["/tmp/new_file.txt".to_string()]);
    assert!(file_was_modified(1, 2, 1, 3));
    assert!(file_was_modified(1, 2, 4, 2));
    assert!(!file_was_modified(1, 2, 1, 2));
}

#[test]
fn submitting_the_create_form_creates_and_adds() {
    let repo = MockRepo::with_count(0);
    let prefs = bit7z_archiver::domain::preferences::ArchivePrefs::default();
    let items = vec![bit7z_archiver::domain::archive::CreateFileItem {
        path: "/data/a.txt".to_string(),
        is_directory: false,
        size: Some(1),
    }];
    let form = bit7z_archiver::adapters::dialogs::CreateForm::new(items, &prefs);
    assert!(form.submit(&repo, &[true]).is_ok());
    assert_eq!(repo.added_paths.borrow().as_slice(), &["/data/a.txt".to_string()]);
}

#[test]
fn submitting_with_a_missing_file_adds_nothing() {
    let repo = MockRepo::with_count(0);
    let prefs = bit7z_archiver::domain::preferences::ArchivePrefs::default();
    let item = |p: &str| bit7z_archiver::domain::archive::CreateFileItem {
        path: p.to_string(),
        is_directory: false,
        size: Some(1),
    };
    let form = bit7z_archiver::adapters::dialogs::CreateForm::new(vec![item("/data/a.txt"), item("/gone.txt")], &prefs);
    assert!(form.submit(&repo, &[true, false]).is_ok());
    assert!(repo.added_paths.borrow().is_empty());
}

#[test]
fn a_directory_stands_for_its_files_and_unreadable_files_fail() {
    let entries = vec![
        ArchiveEntry {
            name: "d".into(),
            path: "d".into(),
            is_directory: true,
            original_index: 0,
            ..Default::default()
        },
        ArchiveEntry {
            name: "x.txt".into(),
            path: "d/x.txt".into(),
            size: 100,
            crc: Some(7),
            original_index: 1,
            ..Default::default()
        },
    ];
    let uc = TestEntriesUseCase::new(MockRepo::new(entries));
    let handle = reader();
    let r = uc.execute::<NoProgress>(&handle, Some(&[0, 1]), None).unwrap();
    assert_eq!((r.total, r.passed, r.failed.len()), (1, 0, 1));
    assert_eq!(r.failed[0].index, 1);
    assert_eq!(r.failed[0].path, "d/x.txt");
    assert!(matches!(r.failed[0].reason, TestFailureReason::ReadError(_)));
}

#[test]
fn testing_everything_tests_each_index() {
    let uc = TestEntriesUseCase::new(MockRepo::with_count(3));
    let handle = reader();
    let r = uc.execute::<NoProgress>(&handle, None, None).unwrap();
    assert_eq!((r.total, r.passed), (3, 0));
    let idx: Vec<usize> = r.failed.iter().map(|f| f.index).collect();
    assert_eq!(idx, vec![0, 1, 2]);
}

/// A receiver that keeps the item counts of every update.
struct Counts(RefCell<Vec<(u64, u64)>>);

impl ProgressNotifier for Counts {
    fn notify(&self, update: &ProgressUpdate) {
        self.0.borrow_mut().push((update.items_done, update.items_total));
    }
}

#[test]
fn testing_reports_each_entry_in_turn() {
    let uc = TestEntriesUseCase::new(tree_repo());
    let handle = reader();
    let counts = Counts(RefCell::new(vec![]));
    let r = uc.execute(&handle, None, Some(&counts)).unwrap();
    assert_eq!(r.total, 4);
    assert_eq!(counts.0.borrow().as_slice(), &[(1, 4), (2, 4), (3, 4), (4, 4)]);
}

#[test]
fn the_controller_expands_directories_in_listing_order() {
    let c = RootController::new(tree_repo());
    let handle = reader();
    assert_eq!(c.expand_indices(&handle, &[4, 1, 0, 1]).unwrap(), vec![2, 3, 0, 2, 3]);
}

#[test]
fn the_controller_announces_and_reports_an_extraction() {
    let c = RootController::new(tree_repo());
    let handle = reader();
    let counts = Counts(RefCell::new(vec![]));
    assert!(c.extract(&handle, &[1, 0], "out", Some(&counts)).is_ok());
    assert_eq!(counts.0.borrow().as_slice(), &[(0, 3), (3, 3)]);
}
