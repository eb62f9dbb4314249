use bit7z_archiver::adapters::progress::{ProgressModel, ProgressState, ToolbarButton, ToolbarState};
use bit7z_archiver::domain::repository::ProgressUpdate;

fn update(file: Option<&str>, items: (u64, u64), bytes: (u64, u64), error: Option<&str>) -> ProgressUpdate {
    ProgressUpdate {
        file_current: 1,
        file_total: 2,
        current_file: file.map(|f| f.to_string()),
        items_done: items.0,
        items_total: items.1,
        bytes_done: bytes.0,
        bytes_total: bytes.1,
        error: error.map(|e| e.to_string()),
    }
}

#[test]
fn updates_build_the_progress() {
    let mut p = ProgressModel::new("Extracting".to_string());
    assert_eq!((p.current, p.total), (0, 1));
    p.apply(update(Some("a.txt"), (0, 0), (10, 100), None));
    assert_eq!(p.message, "a.txt");
    assert_eq!((p.current, p.total, p.file_current, p.file_total), (10, 100, 1, 2));
    assert_eq!(p.status_text(), "a.txt");
    p.apply(update(None, (3, 7), (20, 100), None));
    assert_eq!(p.message, "3/7 items");
    p.apply(update(None, (0, 0), (20, 100), None));
    assert_eq!(p.message, "");
    assert!(!p.is_complete);
    p.apply(update(None, (0, 0), (20, 100), Some("disk full")));
    assert!(p.is_complete);
    assert_eq!(p.error.as_deref(), Some("disk full"));
    assert_eq!(p.status_text(), "Failed");
}

#[test]
fn the_end_of_updates_completes() {
    let mut p = ProgressModel::new("t".to_string());
    p.disconnected();
    assert!(p.is_complete);
    assert_eq!(p.status_text(), "Complete");
    let mut q = ProgressModel::new("t".to_string());
    q.set_progress("half", 5, 10, None);
    assert!(!q.is_complete);
    q.set_progress("done", 10, 10, None);
    assert!(q.is_complete);
    assert!(q.toggle_pause());
    assert!(!q.toggle_pause());
}

#[test]
fn toolbar_buttons() {
    let mut t = ToolbarState::new();
    assert!(!t.enabled(ToolbarButton::Add));
    t.is_open = true;
    assert!(t.enabled(ToolbarButton::Test) && t.enabled(ToolbarButton::Close) && t.enabled(ToolbarButton::Add));
    assert!(!t.enabled(ToolbarButton::Extract));
    t.is_ready = true;
    t.has_selection = true;
    assert!(t.enabled(ToolbarButton::Extract));
}

#[test]
fn progress_lines_show_byte_counts() {
    let mut m = ProgressModel::new("Extracting".to_string());
    m.set_progress("a.txt", 1536, 3 * 1_048_576, None);
    m.file_current = 512;
    m.file_total = 2048;
    assert_eq!(m.total_line(), "Total: 1.50 KB / 3.00 MB");
    assert_eq!(m.file_line(), Some("File: 512 B / 2.00 KB".to_string()));
    m.set_progress("done", 10, 10, None);
    assert_eq!(m.file_line(), None);
}

#[test]
fn progress_state_follows_an_operation() {
    let mut s = ProgressState::new();
    assert!(!s.is_active);
    s.start("Extracting".to_string(), 10);
    assert!(s.is_active);
    assert_eq!((s.current, s.total), (0, 10));
    s.update(4, "a.txt".to_string());
    assert_eq!((s.current, s.total, s.message.as_str()), (4, 10, "a.txt"));
    s.complete("Done".to_string());
    assert!(!s.is_active);
    assert_eq!(s.message, "Done");
    s.start("Testing".to_string(), 3);
    s.error("Failed".to_string());
    assert!(!s.is_active);
    assert_eq!(s.message, "Failed");
}
