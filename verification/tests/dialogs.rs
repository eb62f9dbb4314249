use bit7z_archiver::adapters::bit7z::FilterPolicy;
use bit7z_archiver::adapters::dialogs::{encryption_for, AddFilesForm, CreateForm, ExtractForm};
use bit7z_archiver::domain::archive::{ArchiveFormat, CreateFileItem, EncryptionMethod, OverwriteMode};
use bit7z_archiver::domain::preferences::ArchivePrefs;

fn item(path: &str) -> CreateFileItem {
    CreateFileItem { path: path.to_string(), is_directory: false, size: None }
}

#[test]
fn encryption_follows_the_password_and_format() {
    assert!(encryption_for(&String::new(), true, ArchiveFormat::SevenZip).is_none());
    let c = encryption_for(&"pw12".to_string(), true, ArchiveFormat::SevenZip).unwrap();
    assert_eq!(c.password.as_str(), "pw12");
    assert_eq!(c.method, EncryptionMethod::Aes256);
    assert!(c.encrypt_filenames);
    let z = encryption_for(&"pw12".to_string(), true, ArchiveFormat::Zip).unwrap();
    assert!(!z.encrypt_filenames);
}

#[test]
fn create_form_defaults_and_validity() {
    let mut prefs = ArchivePrefs::default();
    prefs.default_format = ArchiveFormat::Zip;
    let mut f = CreateForm::new(vec![item("photos/holiday.jpg")], &prefs);
    assert_eq!(f.destination, "holiday.zip");
    assert_eq!(f.format, ArchiveFormat::Zip);
    assert!(f.is_valid());
    assert_eq!(f.create_label(), "Create");
    f.password = "abc".to_string();
    f.password_confirm = "abc".to_string();
    assert!(!f.is_valid(), "three bytes are too short");
    f.password = "äbc".to_string();
    f.password_confirm = "äbc".to_string();
    assert!(f.is_valid(), "four bytes");
    f.password_confirm = "abcd".to_string();
    assert!(!f.is_valid());
    assert_eq!(f.create_label(), "Create Encrypted");
    f.select_format(ArchiveFormat::TarGz);
    assert_eq!(f.destination, "holiday.tar.gz");
    let many = CreateForm::new(vec![item("a"), item("b")], &prefs);
    assert_eq!(many.destination, "archive.zip");
    let none = CreateForm::new(vec![], &prefs);
    assert!(!none.is_valid());
}

#[test]
fn add_form_rules() {
    let prefs = ArchivePrefs::default();
    let mut f = AddFilesForm::new(ArchiveFormat::SevenZip, &prefs, true, false);
    assert!(!f.is_valid());
    assert_eq!(f.selection_text(), "0 files selected");
    f.files.push("a.txt".to_string());
    assert_eq!(f.selection_text(), "1 file selected");
    assert!(f.is_valid());
    f.password = "x".to_string();
    assert!(!f.is_valid());
    f.password_confirm = "x".to_string();
    assert!(f.is_valid());
    let e = f.encryption().unwrap();
    assert!(e.encrypt_filenames);
    assert_eq!(f.filter_policy, FilterPolicy::Exclude);
    f.toggle_filter_policy();
    assert_eq!(f.filter_policy, FilterPolicy::Include);
    let solid = {
        let mut s = AddFilesForm::new(ArchiveFormat::SevenZip, &prefs, true, true);
        s.files.push("a".to_string());
        s
    };
    assert!(!solid.is_valid());
}

#[test]
fn extract_form_rules() {
    let mut f = ExtractForm::new(1);
    assert_eq!(f.selection_text(), "1 entry selected");
    assert!(!f.can_extract());
    assert!(f.request().is_none());
    f.destination = "/tmp/out".to_string();
    f.overwrite_mode = OverwriteMode::Skip;
    let q = f.request().unwrap();
    assert_eq!(q.destination, "/tmp/out");
    assert_eq!(q.overwrite_mode, OverwriteMode::Skip);
    assert!(q.preserve_paths);
    assert!(!q.keep_broken);
    assert_eq!(ExtractForm::new(3).selection_text(), "3 entries selected");
}
