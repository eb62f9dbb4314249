//! The value types of the archive-library bridge and the decisions that its
//! callbacks take.
use vstd::prelude::*;

verus! {

/// The kind of library resource that a raw handle holds.
#[derive(Debug, Clone, Copy, PartialEq, Eq, Structural)]
pub enum HandleKind {
    Reader,
    Writer,
    Editor,
}

/// Formats supported for writing (compressing).
#[derive(Debug, Clone, Copy, PartialEq, Eq, Structural)]
pub enum WriterFormat {
    SevenZip,
    Zip,
    Tar,
    GZip,
    BZip2,
    Xz,
    Wim,
}

impl WriterFormat {
    /// The number by which the library knows the format.
    pub fn code(&self) -> (r: i32)
        ensures
            r == (match *self {
                WriterFormat::SevenZip => 0i32,
                WriterFormat::Zip => 1,
                WriterFormat::Tar => 2,
                WriterFormat::GZip => 3,
                WriterFormat::BZip2 => 4,
                WriterFormat::Xz => 5,
                WriterFormat::Wim => 6,
            }),
    {
        match self {
            WriterFormat::SevenZip => 0,
            WriterFormat::Zip => 1,
            WriterFormat::Tar => 2,
            WriterFormat::GZip => 3,
            WriterFormat::BZip2 => 4,
            WriterFormat::Xz => 5,
            WriterFormat::Wim => 6,
        }
    }
}

/// Compression levels of the library.
#[derive(Debug, Clone, Copy, PartialEq, Eq, Structural)]
pub enum WriterCompressionLevel {
    /// Stored without compression.
    NoCompression,
    Fastest,
    Fast,
    Normal,
    Max,
    Ultra,
}

impl WriterCompressionLevel {
    /// The number by which the library knows the level.
    pub fn code(&self) -> (r: i32)
        ensures
            r == (match *self {
                WriterCompressionLevel::NoCompression => 0i32,
                WriterCompressionLevel::Fastest => 1,
                WriterCompressionLevel::Fast => 2,
                WriterCompressionLevel::Normal => 3,
                WriterCompressionLevel::Max => 4,
                WriterCompressionLevel::Ultra => 5,
            }),
    {
        match self {
            WriterCompressionLevel::NoCompression => 0,
            WriterCompressionLevel::Fastest => 1,
            WriterCompressionLevel::Fast => 2,
            WriterCompressionLevel::Normal => 3,
            WriterCompressionLevel::Max => 4,
            WriterCompressionLevel::Ultra => 5,
        }
    }
}

/// Update mode for modifying existing archives.
#[derive(Debug, Clone, Copy, PartialEq, Eq, Structural)]
pub enum UpdateMode {
    /// Existing archives are not updated.
    NoUpdate,
    Append,
    Update,
}

impl UpdateMode {
    /// The number by which the library knows the mode.
    pub fn code(&self) -> (r: i32)
        ensures
            r == (match *self {
                UpdateMode::NoUpdate => 0i32,
                UpdateMode::Append => 1,
                UpdateMode::Update => 2,
            }),
    {
        match self {
            UpdateMode::NoUpdate => 0,
            UpdateMode::Append => 1,
            UpdateMode::Update => 2,
        }
    }
}

/// Compression method for writing archives.
#[derive(Debug, Clone, Copy, PartialEq, Eq, Structural)]
pub enum WriterCompressionMethod {
    Copy,
    Deflate,
    Deflate64,
    BZip2,
    Lzma,
    Lzma2,
    Ppmd,
}

impl WriterCompressionMethod {
    /// The number by which the library knows the method.
    pub fn code(&self) -> (r: i32)
        ensures
            r == (match *self {
                WriterCompressionMethod::Copy => 0i32,
                WriterCompressionMethod::Deflate => 1,
                WriterCompressionMethod::Deflate64 => 2,
                WriterCompressionMethod::BZip2 => 3,
                WriterCompressionMethod::Lzma => 4,
                WriterCompressionMethod::Lzma2 => 5,
                WriterCompressionMethod::Ppmd => 6,
            }),
    {
        match self {
            WriterCompressionMethod::Copy => 0,
            WriterCompressionMethod::Deflate => 1,
            WriterCompressionMethod::Deflate64 => 2,
            WriterCompressionMethod::BZip2 => 3,
            WriterCompressionMethod::Lzma => 4,
            WriterCompressionMethod::Lzma2 => 5,
            WriterCompressionMethod::Ppmd => 6,
        }
    }
}

/// Encryption scope for archive passwords.
#[derive(Debug, Clone, Copy, PartialEq, Eq, Structural)]
pub enum EncryptionScope {
    DataOnly,
    DataAndHeaders,
}

/// Filter policy for directory enumeration.
#[derive(Debug, Clone, Copy, PartialEq, Eq, Structural)]
pub enum FilterPolicy {
    Include,
    Exclude,
}

impl FilterPolicy {
    /// The number by which the library knows the policy.
    pub fn code(&self) -> (r: i32)
        ensures
            r == (match *self {
                FilterPolicy::Include => 0i32,
                FilterPolicy::Exclude => 1,
            }),
    {
        match self {
            FilterPolicy::Include => 0,
            FilterPolicy::Exclude => 1,
        }
    }

    /// The name shown for the policy.
    pub fn label(&self) -> (r: &'static str)
        ensures
            r@ == (match *self {
                FilterPolicy::Include => "Include"@,
                FilterPolicy::Exclude => "Exclude"@,
            }),
    {
        match self {
            FilterPolicy::Include => "Include",
            FilterPolicy::Exclude => "Exclude",
        }
    }
}

/// Events emitted by an extraction or compression worker to the UI thread.
#[derive(Debug)]
pub enum WorkerEvent {
    Progress { current: u64, total: u64, file: String },
    Conflict { src: String, dest: String, existing_size: u64 },
    Complete { total_files: u64, total_bytes: u64 },
    Error(String),
}

/// The user's response to a conflict query.
#[derive(Debug, Clone, Copy, PartialEq, Eq, Structural)]
pub enum ConflictAction {
    Overwrite,
    Skip,
}

/// What a worker's progress callback does next.
#[derive(Debug, Clone, Copy, PartialEq, Eq, Structural)]
pub enum ProgressStep {
    /// Stop the operation: the callback answers 0.
    Cancel,
    /// Paused: wait a moment and look again.
    Wait,
    /// Report the progress and go on: the callback answers 1.
    Continue,
}

/// The next step of a progress callback: a cancel request wins over a pause.
pub fn progress_step(cancel: bool, paused: bool) -> (r: ProgressStep)
    ensures
        r == (if cancel {
            ProgressStep::Cancel
        } else if paused {
            ProgressStep::Wait
        } else {
            ProgressStep::Continue
        }),
{
    if cancel {
        ProgressStep::Cancel
    } else if paused {
        ProgressStep::Wait
    } else {
        ProgressStep::Continue
    }
}

/// The answer of the overwrite callback to the library: 0 overwrites the
/// existing file, 1 skips it. Only an explicit "overwrite" overwrites; no
/// answer (a closed channel) skips.
pub fn conflict_answer(action: Option<ConflictAction>) -> (r: i32)
    ensures
        r == (if action == Some(ConflictAction::Overwrite) {
            0i32
        } else {
            1i32
        }),
{
    match action {
        Some(ConflictAction::Overwrite) => 0,
        _ => 1,
    }
}

/// The number of files that a finished worker reports: one per index or
/// file it was given.
pub fn complete_event(count: usize) -> (r: WorkerEvent)
    ensures
        r matches WorkerEvent::Complete { total_files, total_bytes } && total_files == count && total_bytes
            == 0,
{
    WorkerEvent::Complete { total_files: count as u64, total_bytes: 0 }
}

} // verus!
