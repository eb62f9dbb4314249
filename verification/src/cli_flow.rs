//! The course of a command-line run, as a machine that the program drives:
//! it is told what happened and answers with what to do next. A command on
//! an archive opens it first, runs its operation on it, reports the outcome
//! and closes it exactly once; a failed open is reported and ends the run.
use crate::application::preview::PreviewData;
use crate::cli::{dump_chunk, dump_line, extract_indices, hex_dump_lines, Commands};
use crate::application::test::index_range;
use crate::domain::archive::{opt_view, TestResult};
use crate::domain::repository::{error_message, ArchiveError, ArchiveProperties};
use crate::text::{ascii_chars, decimal, decimal_text};
use vstd::prelude::*;
use vstd::string::*;

verus! {

broadcast use vstd::string::group_string_axioms;

/// Where a run stands.
#[derive(Debug, Clone, Copy, PartialEq, Eq, Structural)]
pub enum CliState {
    /// Nothing has been done yet.
    Start,
    /// The archive is being opened.
    Opening,
    /// The archive is open and the command's operation runs on it.
    Operating,
    /// The archive is open and `count` entries are being extracted.
    Extracting { count: u32 },
    /// The run is over.
    Done,
}

/// What the program reports back to the machine.
pub enum CliEvent {
    /// The run begins.
    Start,
    /// The archive was opened.
    Opened,
    /// The archive could not be opened.
    OpenFailed(ArchiveError),
    /// The archive's properties were read, or could not be.
    Properties(Result<ArchiveProperties, ArchiveError>),
    /// The extraction ended.
    Extracted(Result<(), ArchiveError>),
    /// The archive's own test ended.
    Tested(Result<TestResult, ArchiveError>),
    /// The preview of an entry ended.
    Previewed(Result<PreviewData, ArchiveError>),
    /// The change to the archive (adding, deleting, renaming) ended.
    Changed(Result<(), ArchiveError>),
}

/// What the machine asks the program to do; the operations work on the
/// archive that the program opened.
pub enum CliAction {
    Open { path: String, password: Option<String> },
    ReadProperties,
    Extract { indices: Vec<u32>, dest: String },
    Test,
    Preview { index: u32, max_bytes: usize },
    Add { files: Vec<String> },
    Delete { indices: Vec<u32> },
    Rename { index: u32, name: String },
    Close,
    /// Register (`install`) or unregister the shell's context menu entries.
    Shell { install: bool },
    /// Write a line to standard output.
    Print(String),
    /// Write a line to standard error.
    PrintError(String),
}

/// An action as the contracts speak of it, texts by their characters.
pub enum ActionView {
    Open { path: Seq<char>, password: Option<Seq<char>> },
    ReadProperties,
    Extract { indices: Seq<u32>, dest: Seq<char> },
    Test,
    Preview { index: u32, max_bytes: usize },
    Add { files: Seq<Seq<char>> },
    Delete { indices: Seq<u32> },
    Rename { index: u32, name: Seq<char> },
    Close,
    Shell { install: bool },
    Print(Seq<char>),
    PrintError(Seq<char>),
}

/// The texts of strings.
pub open spec fn string_texts(v: Seq<String>) -> Seq<Seq<char>> {
    v.map_values(|s: String| s@)
}

/// An action by its texts.
pub open spec fn action_view(a: CliAction) -> ActionView {
    match a {
        CliAction::Open { path, password } => ActionView::Open { path: path@, password: opt_view(password) },
        CliAction::ReadProperties => ActionView::ReadProperties,
        CliAction::Extract { indices, dest } => ActionView::Extract { indices: indices@, dest: dest@ },
        CliAction::Test => ActionView::Test,
        CliAction::Preview { index, max_bytes } => ActionView::Preview { index, max_bytes },
        CliAction::Add { files } => ActionView::Add { files: string_texts(files@) },
        CliAction::Delete { indices } => ActionView::Delete { indices: indices@ },
        CliAction::Rename { index, name } => ActionView::Rename { index, name: name@ },
        CliAction::Close => ActionView::Close,
        CliAction::Shell { install } => ActionView::Shell { install },
        CliAction::Print(s) => ActionView::Print(s@),
        CliAction::PrintError(s) => ActionView::PrintError(s@),
    }
}

/// Actions by their texts.
pub open spec fn actions_view(v: Seq<CliAction>) -> Seq<ActionView> {
    v.map_values(|a: CliAction| action_view(a))
}

/// The archive that a command works on, where it works on one.
pub open spec fn command_archive(c: Commands) -> Option<(Seq<char>, Option<Seq<char>>)> {
    match c {
        Commands::Open { path, password } => Some((path@, opt_view(password))),
        Commands::Extract { path, password, .. } => Some((path@, opt_view(password))),
        Commands::Test { path, password } => Some((path@, opt_view(password))),
        Commands::Preview { path, password, .. } => Some((path@, opt_view(password))),
        Commands::Add { path, password, .. } => Some((path@, opt_view(password))),
        Commands::Delete { path, password, .. } => Some((path@, opt_view(password))),
        Commands::Rename { path, password, .. } => Some((path@, opt_view(password))),
        _ => None,
    }
}

/// The operation that a command runs on the archive once it is open.
pub open spec fn operation_of(c: Commands) -> ActionView {
    match c {
        Commands::Test { .. } => ActionView::Test,
        Commands::Preview { index, max_bytes, .. } => ActionView::Preview { index, max_bytes },
        Commands::Add { files, .. } => ActionView::Add { files: string_texts(files@) },
        Commands::Delete { indices, .. } => ActionView::Delete { indices: indices@ },
        Commands::Rename { index, name, .. } => ActionView::Rename { index, name: name@ },
        _ => ActionView::ReadProperties,
    }
}

/// "Opened: PATH (I items, F files, D folders)".
pub open spec fn opened_text(path: Seq<char>, items: u32, files: u32, folders: u32) -> Seq<char> {
    "Opened: "@ + path + " ("@ + decimal_text(items as nat) + " items, "@ + decimal_text(files as nat)
        + " files, "@ + decimal_text(folders as nat) + " folders)"@
}

/// Where an extraction goes: the given destination, else ".".
pub open spec fn extract_dest(to: Option<String>) -> Seq<char> {
    match to {
        Some(d) => d@,
        None => "."@,
    }
}

/// The lines that report a preview.
pub open spec fn preview_lines(r: Result<PreviewData, ArchiveError>) -> Seq<ActionView> {
    match r {
        Ok(PreviewData::Text(t)) => seq![ActionView::Print(t@)],
        Ok(PreviewData::Hex(h)) => Seq::new(
            ((h@.len() + 15) / 16) as nat,
            |i: int| ActionView::Print(ascii_chars(dump_line(dump_chunk(h@, i)))),
        ),
        Ok(PreviewData::Image(img)) => seq![
            ActionView::Print("Image preview: "@ + decimal_text(img@.len()) + " bytes"@),
        ],
        Ok(PreviewData::Unsupported(m)) => seq![ActionView::PrintError("Unsupported: "@ + m@)],
        Err(e) => seq![ActionView::PrintError("Preview error: "@ + error_message(e))],
    }
}

/// The line that reports a change to the archive.
pub open spec fn change_line(c: Commands, r: Result<(), ArchiveError>) -> ActionView {
    match r {
        Ok(()) => match c {
            Commands::Add { path, files, .. } => ActionView::Print(
                "Added "@ + decimal_text(files@.len()) + " files to "@ + path@,
            ),
            Commands::Delete { path, indices, .. } => ActionView::Print(
                "Deleted "@ + decimal_text(indices@.len()) + " entries from "@ + path@,
            ),
            Commands::Rename { index, name, .. } => ActionView::Print(
                "Renamed entry "@ + decimal_text(index as nat) + " to '"@ + name@ + "'"@,
            ),
            _ => ActionView::Close,
        },
        Err(e) => match c {
            Commands::Add { .. } => ActionView::PrintError("Add error: "@ + error_message(e)),
            Commands::Delete { .. } => ActionView::PrintError("Delete error: "@ + error_message(e)),
            _ => ActionView::PrintError("Rename error: "@ + error_message(e)),
        },
    }
}

/// One step of a run: where it goes and what is to be done, in order, when
/// `event` happens in state `s` of a run of the command `c`.
///
/// - At the start, a run without a command reports that; "compress" only
///   reports that archives are made empty first; the shell commands ask for
///   the shell's entries; every other command opens its archive.
/// - A failed open is reported as "Error: ..." and ends the run.
/// - Once the archive is open, the command's operation runs on it: reading
///   the properties (open, extract), testing, previewing, adding, deleting
///   or renaming.
/// - Its outcome is reported and the archive is closed, which ends the run;
///   an extraction first extracts every entry that the properties count
///   (none where they cannot be read).
/// - Any other event changes nothing.
pub open spec fn cli_next(c: Option<Commands>, s: CliState, e: CliEvent) -> (CliState, Seq<ActionView>) {
    match (s, e) {
        (CliState::Start, CliEvent::Start) => match c {
            None => (CliState::Done, seq![ActionView::PrintError("No command specified. Use --help for usage."@)]),
            Some(cmd) => match command_archive(cmd) {
                Some((path, password)) => (CliState::Opening, seq![ActionView::Open { path, password }]),
                None => match cmd {
                    Commands::Compress { files, to, .. } => (
                        CliState::Done,
                        seq![
                            ActionView::PrintError(
                                "Compress: "@ + decimal_text(files@.len()) + " files -> "@ + match to {
                                    Some(d) => d@,
                                    None => "archive.7z"@,
                                } + " (format control pending)"@,
                            ),
                            ActionView::PrintError(
                                "Note: compression is a placeholder \u{2014} files must be added after creation."@,
                            ),
                        ],
                    ),
                    Commands::ShellInstall => (CliState::Done, seq![ActionView::Shell { install: true }]),
                    _ => (CliState::Done, seq![ActionView::Shell { install: false }]),
                },
            },
        },
        (CliState::Opening, CliEvent::OpenFailed(err)) => (
            CliState::Done,
            seq![ActionView::PrintError("Error: "@ + error_message(err))],
        ),
        (CliState::Opening, CliEvent::Opened) => match c {
            Some(cmd) => (CliState::Operating, seq![operation_of(cmd)]),
            None => (s, Seq::empty()),
        },
        (CliState::Operating, CliEvent::Properties(res)) => match c {
            Some(Commands::Open { path, .. }) => match res {
                Ok(p) => (
                    CliState::Done,
                    seq![
                        ActionView::Print(opened_text(path@, p.items_count, p.files_count, p.folders_count)),
                        ActionView::Close,
                    ],
                ),
                Err(err) => (
                    CliState::Done,
                    seq![
                        ActionView::PrintError("Warning: could not read properties: "@ + error_message(err)),
                        ActionView::Print(opened_text(path@, 0, 0, 0)),
                        ActionView::Close,
                    ],
                ),
            },
            Some(Commands::Extract { to, .. }) => {
                let count: u32 = match res {
                    Ok(p) => p.items_count,
                    Err(_) => 0,
                };
                (
                    CliState::Extracting { count },
                    seq![ActionView::Extract { indices: index_range(count as nat), dest: extract_dest(to) }],
                )
            },
            _ => (s, Seq::empty()),
        },
        (CliState::Extracting { count }, CliEvent::Extracted(res)) => match c {
            Some(Commands::Extract { to, .. }) => (
                CliState::Done,
                seq![
                    match res {
                        Ok(()) => ActionView::Print(
                            "Extracted "@ + decimal_text(count as nat) + " entries to "@ + extract_dest(to),
                        ),
                        Err(err) => ActionView::PrintError("Extract error: "@ + error_message(err)),
                    },
                    ActionView::Close,
                ],
            ),
            _ => (s, Seq::empty()),
        },
        (CliState::Operating, CliEvent::Tested(res)) => match c {
            Some(Commands::Test { .. }) => (
                CliState::Done,
                seq![
                    match res {
                        Ok(t) => ActionView::Print(
                            "Test result: "@ + decimal_text(t.passed as nat) + "/"@ + decimal_text(t.total as nat)
                                + " passed"@,
                        ),
                        Err(err) => ActionView::PrintError("Test error: "@ + error_message(err)),
                    },
                    ActionView::Close,
                ],
            ),
            _ => (s, Seq::empty()),
        },
        (CliState::Operating, CliEvent::Previewed(res)) => match c {
            Some(Commands::Preview { .. }) => (CliState::Done, preview_lines(res).push(ActionView::Close)),
            _ => (s, Seq::empty()),
        },
        (CliState::Operating, CliEvent::Changed(res)) => match c {
            Some(cmd) => match cmd {
                Commands::Add { .. } | Commands::Delete { .. } | Commands::Rename { .. } => (
                    CliState::Done,
                    seq![change_line(cmd, res), ActionView::Close],
                ),
                _ => (s, Seq::empty()),
            },
            None => (s, Seq::empty()),
        },
        _ => (s, Seq::empty()),
    }
}

fn copy_text(s: &String) -> (r: String)
    ensures
        r@ == s@,
{
    String::from_str(s.as_str())
}

fn copy_opt_text(s: &Option<String>) -> (r: Option<String>)
    ensures
        opt_view(r) == opt_view(*s),
{
    match s {
        Some(t) => Some(copy_text(t)),
        None => None,
    }
}

fn copy_texts(v: &Vec<String>) -> (r: Vec<String>)
    ensures
        string_texts(r@) == string_texts(v@),
{
    let mut r: Vec<String> = Vec::new();
    let n = v.len();
    let mut i: usize = 0;
    while i < n
        invariant
            n == v@.len(),
            i <= n,
            r@.len() == i,
            forall|j: int| 0 <= j < i ==> #[trigger] r@[j]@ == v@[j]@,
        decreases n - i,
    {
        r.push(copy_text(&v[i]));
        i = i + 1;
    }
    assert(string_texts(r@) =~= string_texts(v@));
    r
}

fn copy_indices(v: &Vec<u32>) -> (r: Vec<u32>)
    ensures
        r@ == v@,
{
    let mut r: Vec<u32> = Vec::new();
    let n = v.len();
    let mut i: usize = 0;
    while i < n
        invariant
            n == v@.len(),
            i <= n,
            r@ == v@.take(i as int),
        decreases n - i,
    {
        r.push(v[i]);
        i = i + 1;
        assert(r@ =~= v@.take(i as int));
    }
    assert(v@.take(n as int) =~= v@);
    r
}

/// "Opened: PATH (I items, F files, D folders)".
fn opened_message(path: &String, items: u32, files: u32, folders: u32) -> (r: String)
    ensures
        r@ == opened_text(path@, items, files, folders),
{
    let mut r = String::from_str("Opened: ");
    r.append(path.as_str());
    r.append(" (");
    let a = decimal(items as u64);
    r.append(a.as_str());
    r.append(" items, ");
    let b = decimal(files as u64);
    r.append(b.as_str());
    r.append(" files, ");
    let c = decimal(folders as u64);
    r.append(c.as_str());
    r.append(" folders)");
    r
}

/// `prefix` followed by the error's message.
fn error_line(prefix: &str, e: &ArchiveError) -> (r: String)
    ensures
        r@ == prefix@ + error_message(*e),
{
    let mut r = String::from_str(prefix);
    let m = e.message();
    r.append(m.as_str());
    r
}

/// The lines that report a preview.
fn preview_actions(res: Result<PreviewData, ArchiveError>) -> (r: Vec<CliAction>)
    ensures
        actions_view(r@) == preview_lines(res),
{
    let mut r: Vec<CliAction> = Vec::new();
    match &res {
        Ok(PreviewData::Text(t)) => {
            r.push(CliAction::Print(copy_text(t)));
        },
        Ok(PreviewData::Hex(h)) => {
            let lines = hex_dump_lines(h.as_slice());
            let n = lines.len();
            let mut i: usize = 0;
            while i < n
                invariant
                    n == lines@.len(),
                    n == (h@.len() + 15) / 16,
                    i <= n,
                    r@.len() == i,
                    forall|j: int|
                        0 <= j < lines@.len() ==> #[trigger] lines@[j]@ == ascii_chars(dump_line(dump_chunk(h@, j))),
                    forall|j: int|
                        0 <= j < i ==> #[trigger] action_view(r@[j]) == ActionView::Print(
                            ascii_chars(dump_line(dump_chunk(h@, j))),
                        ),
                decreases n - i,
            {
                r.push(CliAction::Print(copy_text(&lines[i])));
                i = i + 1;
            }
        },
        Ok(PreviewData::Image(img)) => {
            let mut m = String::from_str("Image preview: ");
            let d = decimal(img.len() as u64);
            m.append(d.as_str());
            m.append(" bytes");
            r.push(CliAction::Print(m));
        },
        Ok(PreviewData::Unsupported(msg)) => {
            let mut m = String::from_str("Unsupported: ");
            m.append(msg.as_str());
            r.push(CliAction::PrintError(m));
        },
        Err(e) => {
            r.push(CliAction::PrintError(error_line("Preview error: ", e)));
        },
    }
    assert(actions_view(r@) =~= preview_lines(res));
    r
}

/// The line that reports a change (adding, deleting or renaming).
fn change_action(cmd: &Commands, res: &Result<(), ArchiveError>) -> (r: CliAction)
    requires
        cmd is Add || cmd is Delete || cmd is Rename,
    ensures
        action_view(r) == change_line(*cmd, *res),
{
    match res {
        Ok(()) => match cmd {
            Commands::Add { path, files, .. } => {
                let mut m = String::from_str("Added ");
                let d = decimal(files.len() as u64);
                m.append(d.as_str());
                m.append(" files to ");
                m.append(path.as_str());
                CliAction::Print(m)
            },
            Commands::Delete { path, indices, .. } => {
                let mut m = String::from_str("Deleted ");
                let d = decimal(indices.len() as u64);
                m.append(d.as_str());
                m.append(" entries from ");
                m.append(path.as_str());
                CliAction::Print(m)
            },
            Commands::Rename { index, name, .. } => {
                let mut m = String::from_str("Renamed entry ");
                let d = decimal(*index as u64);
                m.append(d.as_str());
                m.append(" to '");
                m.append(name.as_str());
                m.append("'");
                CliAction::Print(m)
            },
            _ => CliAction::Close,
        },
        Err(e) => match cmd {
            Commands::Add { .. } => CliAction::PrintError(error_line("Add error: ", e)),
            Commands::Delete { .. } => CliAction::PrintError(error_line("Delete error: ", e)),
            _ => CliAction::PrintError(error_line("Rename error: ", e)),
        },
    }
}

/// One step of a run (see `cli_next`): where the run goes and what is to be
/// done, in order, when `event` happens in `state`.
pub fn cli_step(cmd: &Option<Commands>, state: CliState, event: CliEvent) -> (r: (CliState, Vec<CliAction>))
    ensures
        (r.0, actions_view(r.1@)) == cli_next(*cmd, state, event),
{
    let ghost e0 = event;
    let mut out: Vec<CliAction> = Vec::new();
    let next = match (state, event) {
        (CliState::Start, CliEvent::Start) => match cmd {
            None => {
                out.push(CliAction::PrintError(String::from_str("No command specified. Use --help for usage.")));
                CliState::Done
            },
            Some(c) => match c {
                Commands::Open { path, password }
                | Commands::Extract { path, password, .. }
                | Commands::Test { path, password }
                | Commands::Preview { path, password, .. }
                | Commands::Add { path, password, .. }
                | Commands::Delete { path, password, .. }
                | Commands::Rename { path, password, .. } => {
                    out.push(CliAction::Open { path: copy_text(path), password: copy_opt_text(password) });
                    CliState::Opening
                },
                Commands::Compress { files, to, .. } => {
                    let mut m = String::from_str("Compress: ");
                    let d = decimal(files.len() as u64);
                    m.append(d.as_str());
                    m.append(" files -> ");
                    match to {
                        Some(t) => m.append(t.as_str()),
                        None => m.append("archive.7z"),
                    }
                    m.append(" (format control pending)");
                    out.push(CliAction::PrintError(m));
                    out.push(
                        CliAction::PrintError(
                            String::from_str("Note: compression is a placeholder \u{2014} files must be added after creation."),
                        ),
                    );
                    CliState::Done
                },
                Commands::ShellInstall => {
                    out.push(CliAction::Shell { install: true });
                    CliState::Done
                },
                Commands::ShellUninstall => {
                    out.push(CliAction::Shell { install: false });
                    CliState::Done
                },
            },
        },
        (CliState::Opening, CliEvent::OpenFailed(err)) => {
            out.push(CliAction::PrintError(error_line("Error: ", &err)));
            CliState::Done
        },
        (CliState::Opening, CliEvent::Opened) => match cmd {
            Some(c) => {
                let a = match c {
                    Commands::Test { .. } => CliAction::Test,
                    Commands::Preview { index, max_bytes, .. } => CliAction::Preview {
                        index: *index,
                        max_bytes: *max_bytes,
                    },
                    Commands::Add { files, .. } => CliAction::Add { files: copy_texts(files) },
                    Commands::Delete { indices, .. } => CliAction::Delete { indices: copy_indices(indices) },
                    Commands::Rename { index, name, .. } => CliAction::Rename { index: *index, name: copy_text(name) },
                    _ => CliAction::ReadProperties,
                };
                out.push(a);
                CliState::Operating
            },
            None => state,
        },
        (CliState::Operating, CliEvent::Properties(res)) => match cmd {
            Some(Commands::Open { path, .. }) => {
                match &res {
                    Ok(p) => {
                        out.push(CliAction::Print(opened_message(path, p.items_count, p.files_count, p.folders_count)));
                    },
                    Err(err) => {
                        out.push(CliAction::PrintError(error_line("Warning: could not read properties: ", err)));
                        out.push(CliAction::Print(opened_message(path, 0, 0, 0)));
                    },
                }
                out.push(CliAction::Close);
                CliState::Done
            },
            Some(Commands::Extract { to, .. }) => {
                let count: u32 = match &res {
                    Ok(p) => p.items_count,
                    Err(_) => 0,
                };
                let dest = match to {
                    Some(t) => copy_text(t),
                    None => String::from_str("."),
                };
                out.push(CliAction::Extract { indices: extract_indices(count), dest });
                CliState::Extracting { count }
            },
            _ => state,
        },
        (CliState::Extracting { count }, CliEvent::Extracted(res)) => match cmd {
            Some(Commands::Extract { to, .. }) => {
                match &res {
                    Ok(()) => {
                        let mut m = String::from_str("Extracted ");
                        let d = decimal(count as u64);
                        m.append(d.as_str());
                        m.append(" entries to ");
                        match to {
                            Some(t) => m.append(t.as_str()),
                            None => m.append("."),
                        }
                        out.push(CliAction::Print(m));
                    },
                    Err(err) => {
                        out.push(CliAction::PrintError(error_line("Extract error: ", err)));
                    },
                }
                out.push(CliAction::Close);
                CliState::Done
            },
            _ => state,
        },
        (CliState::Operating, CliEvent::Tested(res)) => match cmd {
            Some(Commands::Test { .. }) => {
                match &res {
                    Ok(t) => {
                        let mut m = String::from_str("Test result: ");
                        let a = decimal(t.passed as u64);
                        m.append(a.as_str());
                        m.append("/");
                        let b = decimal(t.total as u64);
                        m.append(b.as_str());
                        m.append(" passed");
                        out.push(CliAction::Print(m));
                    },
                    Err(err) => {
                        out.push(CliAction::PrintError(error_line("Test error: ", err)));
                    },
                }
                out.push(CliAction::Close);
                CliState::Done
            },
            _ => state,
        },
        (CliState::Operating, CliEvent::Previewed(res)) => match cmd {
            Some(Commands::Preview { .. }) => {
                out = preview_actions(res);
                out.push(CliAction::Close);
                CliState::Done
            },
            _ => state,
        },
        (CliState::Operating, CliEvent::Changed(res)) => match cmd {
            Some(c) => match c {
                Commands::Add { .. } | Commands::Delete { .. } | Commands::Rename { .. } => {
                    out.push(change_action(c, &res));
                    out.push(CliAction::Close);
                    CliState::Done
                },
                _ => state,
            },
            None => state,
        },
        _ => state,
    };
    proof {
        assert((next, actions_view(out@)) == cli_next(*cmd, state, e0));
    }
    (next, out)
}

} // verus!
