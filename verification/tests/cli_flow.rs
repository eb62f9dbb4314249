use bit7z_archiver::cli::Commands;
use bit7z_archiver::cli_flow::{cli_step, CliAction, CliEvent, CliState};
use bit7z_archiver::domain::repository::{ArchiveError, ArchiveProperties};

fn lines(actions: &[CliAction]) -> Vec<String> {
    actions
        .iter()
        .map(|a| match a {
            CliAction::Print(s) => format!("out:{}", s),
            CliAction::PrintError(s) => format!("err:{}", s),
            CliAction::Close => "close".to_string(),
            CliAction::Open { path, .. } => format!("open:{}", path),
            CliAction::ReadProperties => "properties".to_string(),
            CliAction::Extract { indices, dest } => format!("extract:{:?}:{}", indices, dest),
            CliAction::Test => "test".to_string(),
            _ => "other".to_string(),
        })
        .collect()
}

#[test]
fn an_open_command_opens_reports_and_closes() {
    let cmd = Some(Commands::Open { path: "a.7z".to_string(), password: None });
    let (s, a) = cli_step(&cmd, CliState::Start, CliEvent::Start);
    assert_eq!((s, lines(&a)), (CliState::Opening, vec!["open:a.7z".to_string()]));
    let (s, a) = cli_step(&cmd, s, CliEvent::Opened);
    assert_eq!((s, lines(&a)), (CliState::Operating, vec!["properties".to_string()]));
    let props = ArchiveProperties { items_count: 3, files_count: 2, folders_count: 1, ..Default::default() };
    let (s, a) = cli_step(&cmd, s, CliEvent::Properties(Ok(props)));
    assert_eq!(s, CliState::Done);
    assert_eq!(lines(&a), vec!["out:Opened: a.7z (3 items, 2 files, 1 folders)".to_string(), "close".to_string()]);
    let (s, a) = cli_step(&cmd, s, CliEvent::Opened);
    assert_eq!((s, a.len()), (CliState::Done, 0));
}

#[test]
fn a_failed_open_is_reported_and_ends_the_run() {
    let cmd = Some(Commands::Test { path: "x.zip".to_string(), password: None });
    let (s, _) = cli_step(&cmd, CliState::Start, CliEvent::Start);
    let (s, a) = cli_step(&cmd, s, CliEvent::OpenFailed(ArchiveError::UnsupportedFormat));
    assert_eq!(s, CliState::Done);
    assert_eq!(lines(&a), vec!["err:Error: Unsupported archive format".to_string()]);
}

#[test]
fn an_extraction_takes_every_counted_entry() {
    let cmd = Some(Commands::Extract { path: "a.7z".to_string(), to: Some("out".to_string()), password: None });
    let (s, _) = cli_step(&cmd, CliState::Start, CliEvent::Start);
    let (s, _) = cli_step(&cmd, s, CliEvent::Opened);
    let props = ArchiveProperties { items_count: 3, ..Default::default() };
    let (s, a) = cli_step(&cmd, s, CliEvent::Properties(Ok(props)));
    assert_eq!(s, CliState::Extracting { count: 3 });
    assert_eq!(lines(&a), vec!["extract:[0, 1, 2]:out".to_string()]);
    let (s, a) = cli_step(&cmd, s, CliEvent::Extracted(Ok(())));
    assert_eq!(s, CliState::Done);
    assert_eq!(lines(&a), vec!["out:Extracted 3 entries to out".to_string(), "close".to_string()]);
}

#[test]
fn no_command_is_reported() {
    let (s, a) = cli_step(&None, CliState::Start, CliEvent::Start);
    assert_eq!(s, CliState::Done);
    assert_eq!(lines(&a), vec!["err:No command specified. Use --help for usage.".to_string()]);
}
