use bit7z_archiver::domain::archive::{
    next_archive_id, ArchiveEntry, ArchiveFormat, ArchiveHandle, ArchiveIds, CreateFileItem, EncryptionMethod,
    OverwriteMode, Page, Password, TestFailure, TestFailureReason, TestResult,
};

#[test]
fn test_archive_format_extension() {
    assert_eq!(ArchiveFormat::SevenZip.extension(), "7z");
    assert_eq!(ArchiveFormat::Zip.extension(), "zip");
    assert_eq!(ArchiveFormat::Tar.extension(), "tar");
}

#[test]
fn test_archive_format_supports_encryption() {
    assert!(ArchiveFormat::SevenZip.supports_encryption());
    assert!(ArchiveFormat::Zip.supports_encryption());
    assert!(!ArchiveFormat::Tar.supports_encryption());
    assert!(!ArchiveFormat::Rar.supports_encryption());
}

#[test]
fn test_archive_format_is_writable() {
    assert!(ArchiveFormat::SevenZip.is_writable());
    assert!(!ArchiveFormat::Rar.is_writable());
}

#[test]
fn test_archive_format_display_name() {
    assert_eq!(ArchiveFormat::SevenZip.display_name(), "7z");
    assert_eq!(ArchiveFormat::TarGz.display_name(), "Tar.gz");
}

#[test]
fn test_all_passed() {
    let r = TestResult { total: 10, passed: 10, failed: vec![] };
    assert_eq!(r.total, 10);
    assert_eq!(r.passed, 10);
    assert!(r.failed.is_empty());
}

#[test]
fn test_all_failed() {
    let failures: Vec<TestFailure> = (0..3)
        .map(|i| TestFailure {
            entry_path: format!("f{}.txt", i),
            error: "CRC mismatch".into(),
            index: i,
            path: format!("f{}.txt", i),
            reason: TestFailureReason::CrcMismatch { expected: i as u32, actual: 99 },
        })
        .collect();
    let r = TestResult { total: 3, passed: 0, failed: failures };
    assert_eq!(r.total, 3);
    assert_eq!(r.passed, 0);
    assert_eq!(r.failed.len(), 3);
}

#[test]
fn test_mixed() {
    let r = TestResult {
        total: 5,
        passed: 4,
        failed: vec![TestFailure {
            entry_path: "bad.txt".into(),
            error: "err".into(),
            index: 1,
            path: "bad.txt".into(),
            reason: TestFailureReason::ReadError("err".into()),
        }],
    };
    assert_eq!(r.passed, r.total - r.failed.len());
}

#[test]
fn test_empty() {
    let r = TestResult { total: 0, passed: 0, failed: vec![] };
    assert_eq!(r.total, 0);
    assert_eq!(r.passed, 0);
}

#[test]
fn format_flags_for_every_format() {
    let all = [
        ArchiveFormat::SevenZip,
        ArchiveFormat::Zip,
        ArchiveFormat::Tar,
        ArchiveFormat::TarGz,
        ArchiveFormat::TarXz,
        ArchiveFormat::TarBz2,
        ArchiveFormat::Rar,
    ];
    let exts = ["7z", "zip", "tar", "tar.gz", "tar.xz", "tar.bz2", "rar"];
    let names = ["7z", "Zip", "Tar", "Tar.gz", "Tar.xz", "Tar.bz2", "Rar"];
    for (i, f) in all.iter().enumerate() {
        assert_eq!(f.extension(), exts[i]);
        assert_eq!(f.display_name(), names[i]);
        assert_eq!(f.supports_encrypted_filenames(), *f == ArchiveFormat::SevenZip);
        assert_eq!(f.supports_compression_level(), *f != ArchiveFormat::Tar);
        // a format with encrypted names also encrypts data
        if f.supports_encrypted_filenames() {
            assert!(f.supports_encryption());
        }
        // encryption is offered exactly where a method exists
        assert_eq!(f.supports_encryption(), !EncryptionMethod::available_for(*f).is_empty());
    }
}

#[test]
fn encryption_methods() {
    assert_eq!(EncryptionMethod::available_for(ArchiveFormat::SevenZip), vec![EncryptionMethod::Aes256]);
    assert_eq!(EncryptionMethod::available_for(ArchiveFormat::Zip), vec![EncryptionMethod::ZipCrypto]);
    assert!(EncryptionMethod::available_for(ArchiveFormat::Tar).is_empty());
    assert_eq!(EncryptionMethod::Aes256.display_name(), "AES-256");
    assert_eq!(EncryptionMethod::ZipCrypto.display_name(), "ZipCrypto");
}

#[test]
fn overwrite_modes() {
    let all = OverwriteMode::all();
    assert_eq!(
        all,
        vec![OverwriteMode::Ask, OverwriteMode::Overwrite, OverwriteMode::Skip, OverwriteMode::RenameExtracted]
    );
    for (i, m) in all.iter().enumerate() {
        assert_eq!(*m.index(), i as i32);
    }
    assert_eq!(OverwriteMode::RenameExtracted.label(), "Rename extracted");
    assert_eq!(OverwriteMode::Ask.label(), "Ask");
}

#[test]
fn handles_get_increasing_distinct_ids() {
    let mut ids = ArchiveIds::new();
    let a = ArchiveHandle::new_reader(&mut ids);
    let b = ArchiveHandle::new_writer(&mut ids);
    assert_eq!(a.id(), 1);
    assert_eq!(b.id(), 2);
    assert!(!a.is_writer());
    assert!(b.is_writer());
    assert_eq!(next_archive_id(&mut ids), 3);
}

#[test]
fn handle_builders_and_encryption_info() {
    let mut ids = ArchiveIds::new();
    let mut h = ArchiveHandle::new_reader(&mut ids)
        .with_path("a/b.7z".to_string())
        .with_format(ArchiveFormat::Zip);
    assert_eq!(h.path().map(|s| s.as_str()), Some("a/b.7z"));
    assert_eq!(h.format(), Some(ArchiveFormat::Zip));
    h = h.with_format_opt(None);
    assert_eq!(h.format(), None);
    assert!(!h.is_header_encrypted());
    h.set_encryption_info(true, false);
    assert!(h.is_header_encrypted());
    assert!(!h.has_encrypted_items());
}

#[test]
fn password_gives_back_its_text() {
    let p = Password::new("s3cret".to_string());
    assert_eq!(p.as_str(), "s3cret");
    assert!(!p.is_empty());
    let q = p.clone();
    assert_eq!(q.as_str(), "s3cret");
    assert!(Password::new(String::new()).is_empty());
}

#[test]
fn page_holds_its_parts() {
    let p = Page::new(vec![1u8, 2], 5, Some(9));
    assert_eq!(p.items, vec![1, 2]);
    assert_eq!(p.offset, 5);
    assert_eq!(p.total, Some(9));
}

#[test]
fn default_entry_is_empty() {
    let e = ArchiveEntry::default();
    assert_eq!(e.name, "");
    assert_eq!(e.size, 0);
    assert_eq!(e.crc, None);
    assert_eq!(e.original_index, 0);
    let c = e.clone();
    assert_eq!(c, e);
}

#[test]
fn create_file_item_display_name() {
    let item = CreateFileItem { path: "dir/sub/file.txt".to_string(), is_directory: false, size: Some(3) };
    assert_eq!(item.display_name(), "file.txt");
    let bare = CreateFileItem { path: "file.txt".to_string(), is_directory: false, size: None };
    assert_eq!(bare.display_name(), "file.txt");
    let root = CreateFileItem { path: "/".to_string(), is_directory: true, size: None };
    assert_eq!(root.display_name(), "/");
    let item = |p: &str| CreateFileItem { path: p.to_string(), is_directory: false, size: None };
    assert_eq!(item("/tmp/dir/report.txt").display_name(), "report.txt");
    assert_eq!(item("a/dir/").display_name(), "dir");
    assert_eq!(item("..").display_name(), "..");
    assert_eq!(item("a/./b/.").display_name(), "b");
}
