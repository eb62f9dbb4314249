use bit7z_archiver::adapters::bit7z::{
    complete_event, conflict_answer, progress_step, ConflictAction, FilterPolicy, ProgressStep,
    UpdateMode, WorkerEvent, WriterCompressionLevel, WriterCompressionMethod, WriterFormat,
};
use bit7z_archiver::adapters::repository::{
    archive_properties, detect_writer_format, entry_name, extension_writer_format, is_rar_path,
    library_test_result, open_needs_password, overwrite_choice, overwrite_mode_code,
    page_bounds, tally_items, writer_format_for, writer_format_for_extension, ArchiveStats, file_time, overwrite_prompt,
    ItemStat, ItemTotals,
};
use bit7z_archiver::adapters::root_controller::{extract_error_message, extract_start_message};
use bit7z_archiver::adapters::views::{
    level_choice_label, recent_files_shown, bool_yn, compression_level_name, compression_levels, default_destination, format_label,
    props_type_label, writable_format_items, writable_format_options, writable_formats,
};
use bit7z_archiver::adapters::properties::{
    archive_property_sheet, entries_dialog_title, entries_list_label, entries_totals, entry_list_rows, entry_summary,
    single_entry_sheet, PropertySection,
};
use bit7z_archiver::domain::archive::{ArchiveEntry, ArchiveFormat, CreateFileItem, OverwriteMode, TestFailureReason};
use bit7z_archiver::domain::repository::{ArchiveError, ArchiveProperties};

#[test]
fn test_conflict_action_clone_copy_eq() {
    assert_eq!(ConflictAction::Overwrite, ConflictAction::Overwrite);
    assert_eq!(ConflictAction::Skip, ConflictAction::Skip);
    assert_ne!(ConflictAction::Overwrite, ConflictAction::Skip);
}

#[test]
fn conflict_answer_overwrites_only_when_told() {
    assert_eq!(conflict_answer(Some(ConflictAction::Overwrite)), 0);
    assert_eq!(conflict_answer(Some(ConflictAction::Skip)), 1);
    assert_eq!(conflict_answer(None), 1);
}

#[test]
fn progress_step_cancel_wins_over_pause() {
    assert_eq!(progress_step(true, true), ProgressStep::Cancel);
    assert_eq!(progress_step(true, false), ProgressStep::Cancel);
    assert_eq!(progress_step(false, true), ProgressStep::Wait);
    assert_eq!(progress_step(false, false), ProgressStep::Continue);
}

#[test]
fn complete_event_counts_files() {
    match complete_event(3) {
        WorkerEvent::Complete { total_files, total_bytes } => {
            assert_eq!(total_files, 3);
            assert_eq!(total_bytes, 0);
        }
        other => panic!("unexpected event {:?}", other),
    }
}

#[test]
fn library_codes() {
    assert_eq!(WriterFormat::SevenZip.code(), 0);
    assert_eq!(WriterFormat::Wim.code(), 6);
    assert_eq!(WriterCompressionLevel::NoCompression.code(), 0);
    assert_eq!(WriterCompressionLevel::Ultra.code(), 5);
    assert_eq!(UpdateMode::Update.code(), 2);
    assert_eq!(WriterCompressionMethod::Lzma2.code(), 5);
    assert_eq!(FilterPolicy::Exclude.code(), 1);
    assert_eq!(FilterPolicy::Include.label(), "Include");
}

#[test]
fn writer_formats_of_archive_formats() {
    assert_eq!(writer_format_for(ArchiveFormat::TarGz), Ok(WriterFormat::GZip));
    assert_eq!(writer_format_for(ArchiveFormat::Zip), Ok(WriterFormat::Zip));
    assert_eq!(writer_format_for(ArchiveFormat::Rar), Err(ArchiveError::UnsupportedOperation));
}

#[test]
fn writer_formats_of_extensions() {
    assert_eq!(extension_writer_format("tbz2"), Some(WriterFormat::BZip2));
    assert_eq!(extension_writer_format("txz"), Some(WriterFormat::Xz));
    assert_eq!(extension_writer_format("rar"), None);
    assert_eq!(writer_format_for_extension(Some("ZIP")), WriterFormat::Zip);
    assert_eq!(writer_format_for_extension(Some("doc")), WriterFormat::SevenZip);
    assert_eq!(writer_format_for_extension(None), WriterFormat::SevenZip);
}

#[test]
fn detect_writer_format_reads_the_extension() {
    assert_eq!(detect_writer_format("backup/Data.TGZ"), WriterFormat::GZip);
    assert_eq!(detect_writer_format("a.zip"), WriterFormat::Zip);
    assert_eq!(detect_writer_format("noext"), WriterFormat::SevenZip);
}

#[test]
fn lowercase_lowers() {
    assert_eq!(detect_writer_format("Archive.ZIP"), WriterFormat::Zip);
    assert_eq!(writer_format_for_extension(Some("TGZ")), WriterFormat::GZip);
}

#[test]
fn rar_paths() {
    assert!(is_rar_path("x/Y.RAR"));
    assert!(is_rar_path(".rar"));
    assert!(!is_rar_path("rar"));
    assert!(!is_rar_path("a.rar.zip"));
}

#[test]
fn encrypted_headers_need_a_password() {
    assert_eq!(open_needs_password(true, false), Some(ArchiveError::EncryptedArchiveRequiresPassword));
    assert_eq!(open_needs_password(true, true), None);
    assert_eq!(open_needs_password(false, false), None);
}

#[test]
fn overwrite_codes_and_choices() {
    assert_eq!(overwrite_mode_code(OverwriteMode::Overwrite), 0);
    assert_eq!(overwrite_mode_code(OverwriteMode::Skip), 1);
    assert_eq!(overwrite_mode_code(OverwriteMode::RenameExtracted), 2);
    assert_eq!(overwrite_mode_code(OverwriteMode::Ask), -1);
    assert_eq!(overwrite_choice(0), Some(0));
    assert_eq!(overwrite_choice(2), Some(0));
    assert_eq!(overwrite_choice(1), Some(1));
    assert_eq!(overwrite_choice(-1), None);
}

#[test]
fn entry_names_follow_the_last_slash() {
    assert_eq!(entry_name("a/b/c.txt"), "c.txt");
    assert_eq!(entry_name("c.txt"), "c.txt");
    assert_eq!(entry_name("dir/"), "");
    assert_eq!(entry_name(""), "");
}

#[test]
fn page_bounds_clamp_to_the_count() {
    assert_eq!(page_bounds(0, 10, 5), (0, 5));
    assert_eq!(page_bounds(2, 2, 5), (2, 4));
    assert_eq!(page_bounds(7, 2, 5), (5, 5));
    assert_eq!(page_bounds(1, usize::MAX, 5), (1, 5));
}

#[test]
fn library_test_results() {
    let ok = library_test_result(true, 4, 0, None);
    assert_eq!((ok.total, ok.passed, ok.failed.len()), (4, 4, 0));

    let bad = library_test_result(false, 3, 2, Some("boom".to_string()));
    assert_eq!((bad.total, bad.passed, bad.failed.len()), (3, 1, 2));
    assert_eq!(bad.failed[1].entry_path, "index 1");
    assert_eq!(bad.failed[1].index, 1);
    assert_eq!(bad.failed[0].error, "boom");
    assert!(matches!(bad.failed[0].reason, TestFailureReason::ReadError(ref m) if m == "boom"));

    let extra = library_test_result(false, 1, 2, None);
    assert_eq!(extra.passed, 0);
    assert_eq!(extra.failed[1].entry_path, "index 1 (extra)");
    assert_eq!(extra.failed[1].error, "test failed");

    let none = library_test_result(false, 0, 3, None);
    assert_eq!(none.failed.len(), 1);
    assert_eq!(none.failed[0].entry_path, "");
}

#[test]
fn tally_counts_and_sums() {
    let items = [
        ItemStat { is_dir: true, size: 0, packed_size: 0 },
        ItemStat { is_dir: false, size: 10, packed_size: 4 },
        ItemStat { is_dir: false, size: u64::MAX, packed_size: 1 },
    ];
    let t = tally_items(&items);
    assert_eq!(t.folders, 1);
    assert_eq!(t.files, 2);
    assert_eq!(t.total_size, u64::MAX);
    assert_eq!(t.packed_size, 5);
}

#[test]
fn properties_from_library_data() {
    let totals = ItemTotals { folders: 1, files: 2, total_size: 30, packed_size: 12 };
    let stats = ArchiveStats {
        is_solid: true,
        is_multi_volume: false,
        volumes_count: 1,
        headers_size: 64,
        has_comment: false,
        dictionary_size: 0,
    };
    let p = archive_properties(3, totals, stats, true, false);
    assert_eq!(p.items_count, 3);
    assert_eq!(p.folders_count + p.files_count, p.items_count);
    assert_eq!(p.total_size, 30);
    assert!(p.is_encrypted && p.encrypted_names);
    assert_eq!(p.dictionary_size, None);
    let stats2 = ArchiveStats { dictionary_size: 1 << 20, ..stats };
    assert_eq!(archive_properties(3, totals, stats2, false, false).dictionary_size, Some(1 << 20));
}

#[test]
fn extract_messages() {
    assert_eq!(extract_start_message(3, "out"), "Extracting 3 items to out");
    assert_eq!(
        extract_error_message(7, "out", &ArchiveError::WrongPassword),
        "Extract error (id=7, dest=out): Wrong password"
    );
}

#[test]
fn view_labels() {
    assert_eq!(compression_level_name(0), "None");
    assert_eq!(compression_level_name(4), "Maximum");
    assert_eq!(compression_level_name(9), "Normal");
    assert_eq!(format_label(ArchiveFormat::TarBz2), "TAR.BZ2");
    assert_eq!(bool_yn(true), "Yes");
    assert_eq!(bool_yn(false), "No");
    let levels = compression_levels();
    assert_eq!(levels.len(), 6);
    assert_eq!(levels[5].label, "Ultra");
}

#[test]
fn writable_format_lists() {
    let f = writable_formats();
    assert_eq!(f.len(), 6);
    assert!(!f.contains(&ArchiveFormat::Rar));
    let items = writable_format_items();
    assert_eq!(items[3].label, "TAR.GZ");
    let opts = writable_format_options();
    assert_eq!(opts[0], ("7Z".to_string(), "7z".to_string()));
    assert_eq!(opts[5], ("TAR.XZ".to_string(), "tar.xz".to_string()));
}

#[test]
fn type_labels() {
    let mut p = ArchiveProperties::default();
    assert_eq!(props_type_label(&p), "Archive");
    p.is_solid = true;
    assert_eq!(props_type_label(&p), "Solid");
    p.is_multi_volume = true;
    assert_eq!(props_type_label(&p), "Solid Multi-volume");
    p.is_solid = false;
    assert_eq!(props_type_label(&p), "Multi-volume");
}

#[test]
fn default_destinations() {
    let one = [CreateFileItem { path: "docs/report.pdf".to_string(), is_directory: false, size: Some(3) }];
    assert_eq!(default_destination(&one, ArchiveFormat::Zip), "report.zip");
    let two = [
        CreateFileItem { path: "a.txt".to_string(), is_directory: false, size: None },
        CreateFileItem { path: "b.txt".to_string(), is_directory: false, size: None },
    ];
    assert_eq!(default_destination(&two, ArchiveFormat::TarGz), "archive.tar.gz");
}

fn sheet_rows(sheet: &[PropertySection]) -> Vec<(String, Vec<(String, String)>)> {
    sheet
        .iter()
        .map(|s| (s.title.clone(), s.rows.iter().map(|r| (r.label.clone(), r.value.clone())).collect()))
        .collect()
}

fn rows(pairs: &[(&str, &str)]) -> Vec<(String, String)> {
    pairs.iter().map(|(a, b)| (a.to_string(), b.to_string())).collect()
}

#[test]
fn single_entry_sheet_lists_what_is_known() {
    let e = ArchiveEntry {
        name: "a.txt".into(),
        path: "docs/a.txt".into(),
        size: 2048,
        compressed_size: 100,
        crc: Some(0xabc),
        modified: Some(0),
        posix_attrib: Some(0o644),
        is_encrypted: true,
        hardlink: Some("b.txt".into()),
        ..Default::default()
    };
    let sheet = sheet_rows(&single_entry_sheet(&e, "95%"));
    let size = "2.0 KB".to_string();
    let packed = "100 B".to_string();
    assert_eq!(
        sheet,
        vec![
            (
                "General".to_string(),
                rows(&[
                    ("Name", "a.txt"),
                    ("Path", "docs/a.txt"),
                    ("Extension", "-"),
                    ("Size", &size),
                    ("Packed", &packed),
                    ("Ratio", "95%"),
                    ("CRC", "00000ABC"),
                ])
            ),
            ("Time".to_string(), rows(&[("Modified", "1970-01-01 00:00:00 UTC")])),
            ("Platform".to_string(), rows(&[("POSIX", "644")])),
            ("Security".to_string(), rows(&[("Encrypted", "Yes")])),
            ("Links".to_string(), rows(&[("Hardlink target", "b.txt")])),
        ]
    );
}

#[test]
fn entry_summary_has_type_and_no_links() {
    let e = ArchiveEntry {
        name: "d".into(),
        path: "d".into(),
        is_directory: true,
        is_symlink: true,
        host_os: Some(3),
        attributes: Some(0x10),
        hardlink: Some("x".into()),
        ..Default::default()
    };
    let sheet = sheet_rows(&entry_summary(&e, "0%"));
    assert_eq!(sheet.len(), 3);
    assert_eq!(sheet[0].1[1], ("Type".to_string(), "Directory".to_string()));
    assert_eq!(sheet[1], ("Platform".to_string(), rows(&[("Host OS", "3"), ("Attributes", "00000010")])));
    assert_eq!(sheet[2], ("Technical".to_string(), rows(&[("Symlink", "Yes")])));
}

#[test]
fn archive_sheet_rows() {
    let mut p = ArchiveProperties::default();
    p.files_count = 4;
    p.folders_count = 1;
    p.is_solid = true;
    let sheet = sheet_rows(&archive_property_sheet("x.7z", &p, "50%"));
    assert_eq!(sheet[0].1[0], ("Type".to_string(), "Solid".to_string()));
    assert_eq!(sheet[0].1[4], ("Ratio".to_string(), "0%".to_string()));
    assert_eq!(sheet[0].1[5], ("Files".to_string(), "4".to_string()));
    assert_eq!(sheet[1].1.len(), 7);
    p.total_size = 10;
    p.dictionary_size = Some(1 << 20);
    let sheet = sheet_rows(&archive_property_sheet("x.7z", &p, "50%"));
    assert_eq!(sheet[0].1[4], ("Ratio".to_string(), "50%".to_string()));
    assert_eq!(sheet[1].1[7], ("Dictionary".to_string(), "1.0 MB".to_string()));
}

#[test]
fn several_entries_sheet() {
    let a = ArchiveEntry { path: "a".into(), size: 1024, compressed_size: 10, ..Default::default() };
    let b = ArchiveEntry { path: "d/b".into(), size: 1024, compressed_size: 20, ..Default::default() };
    let entries = [a, b];
    let sheet = sheet_rows(&entries_totals(&entries));
    assert_eq!(
        sheet,
        vec![("Totals".to_string(), rows(&[("Size", "2.0 KB"), ("Packed", "30 B"), ("Files", "2")]))]
    );
    let list = entry_list_rows(&entries);
    assert_eq!(list[1], ("d/b".to_string(), "1.0 KB".to_string(), "20 B".to_string()));
    assert_eq!(entries_dialog_title(2), "2 Entries Properties");
    assert_eq!(entries_dialog_title(1), "Entry Properties");
    assert_eq!(entries_list_label(2), "Entries (2)");
}

#[test]
fn settings_texts() {
    assert_eq!(level_choice_label(5), "5 - Ultra");
    assert_eq!(level_choice_label(7), "7 - Normal");
    let recent: Vec<String> = (0..7).map(|i| format!("r{}.7z", i)).collect();
    let shown = recent_files_shown(&recent);
    assert_eq!(shown, recent[..5].to_vec());
    assert_eq!(recent_files_shown(&recent[..2]), recent[..2].to_vec());
}

#[test]
fn file_time_writes_utc_and_clamps_to_the_epoch() {
    assert_eq!(file_time(0), "1970-01-01 00:00:00");
    assert_eq!(file_time(-5), "1970-01-01 00:00:00");
    assert_eq!(file_time(86_400 + 3_661), "1970-01-02 01:01:01");
    assert_eq!(file_time(i64::MAX), "1970-01-01 00:00:00");
}

#[test]
fn overwrite_prompt_names_both_files() {
    let text = overwrite_prompt("a.txt", "out/a.txt", 2048, 1536, 0, 86_400);
    assert_eq!(
        text,
        "File exists:\nSource: a.txt\n  Size: 1.50 KiB     Modified: 1970-01-01 00:00:00\n\
         Dest:   out/a.txt\n  Size: 2 KiB     Modified: 1970-01-02 00:00:00\n\n\
         Yes = Overwrite    No = Skip    Cancel = Overwrite"
    );
}

#[test]
fn writer_formats_follow_the_last_extension() {
    let d = detect_writer_format;
    assert_eq!(d("a.7z"), WriterFormat::SevenZip);
    assert_eq!(d("B.ZIP"), WriterFormat::Zip);
    assert_eq!(d("x.tar"), WriterFormat::Tar);
    assert_eq!(d("x.tar.gz"), WriterFormat::GZip);
    assert_eq!(d("x.tgz"), WriterFormat::GZip);
    assert_eq!(d("x.bz2"), WriterFormat::BZip2);
    assert_eq!(d("x.tbz2"), WriterFormat::BZip2);
    assert_eq!(d("x.txz"), WriterFormat::Xz);
    assert_eq!(d("x.rar"), WriterFormat::SevenZip);
    assert_eq!(d("noext"), WriterFormat::SevenZip);
    assert_eq!(d("dir.zip/file"), WriterFormat::SevenZip);
}

#[test]
fn properties_count_the_item_list() {
    let items = vec![
        ItemStat { is_dir: true, size: 0, packed_size: 0 },
        ItemStat { is_dir: false, size: 10, packed_size: 4 },
        ItemStat { is_dir: false, size: 5, packed_size: 3 },
    ];
    let stats = ArchiveStats {
        is_solid: true,
        is_multi_volume: false,
        volumes_count: 1,
        headers_size: 7,
        has_comment: false,
        dictionary_size: 0,
    };
    let p = bit7z_archiver::adapters::repository::item_list_properties(&items, stats, true, false);
    assert_eq!((p.items_count, p.folders_count, p.files_count), (3, 1, 2));
    assert_eq!((p.total_size, p.packed_size), (15, 7));
    assert!(p.is_encrypted && p.encrypted_names && !p.has_encrypted_items && p.is_solid);
    assert_eq!(p.dictionary_size, None);
}
