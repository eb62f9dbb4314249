use crate::domain::archive::{ArchiveEntry, ArchiveFormat, ArchiveHandle, EncryptionConfig, Page, Password, TestResult};
use vstd::prelude::*;
use vstd::string::*;

verus! {

/// Progress update message sent during long-running operations.
#[derive(Debug, Clone)]
pub struct ProgressUpdate {
    pub file_current: u64,
    pub file_total: u64,
    pub current_file: Option<String>,
    pub items_done: u64,
    pub items_total: u64,
    pub bytes_done: u64,
    pub bytes_total: u64,
    pub error: Option<String>,
}

/// Receiver of progress updates (a port that adapters implement).
pub trait ProgressNotifier {
    fn notify(&self, update: &ProgressUpdate);
}

/// Domain-level errors for archive operations.
#[derive(Debug, Clone, PartialEq)]
pub enum ArchiveError {
    NotFound(String),
    UnsupportedFormat,
    Corrupt(String),
    WrongPassword,
    EncryptedArchiveRequiresPassword,
    /// An I/O failure, with the operating system's description of it.
    Io(String),
    Internal(String),
    Canceled,
    UnsupportedOperation,
    ReadOnlyArchive,
}

/// The message that describes an error to the user.
pub open spec fn error_message(e: ArchiveError) -> Seq<char> {
    match e {
        ArchiveError::NotFound(s) => "File not found: "@ + s@,
        ArchiveError::UnsupportedFormat => "Unsupported archive format"@,
        ArchiveError::Corrupt(s) => "Archive is corrupt: "@ + s@,
        ArchiveError::WrongPassword => "Wrong password"@,
        ArchiveError::EncryptedArchiveRequiresPassword => "Archive is encrypted - password required"@,
        ArchiveError::Io(s) => "I/O error: "@ + s@,
        ArchiveError::Internal(s) => "Internal error: "@ + s@,
        ArchiveError::Canceled => "Operation canceled"@,
        ArchiveError::UnsupportedOperation => "Operation not supported for this archive format"@,
        ArchiveError::ReadOnlyArchive => "Archive is not writable"@,
    }
}

/// `prefix` followed by `tail`, as a new string.
pub fn joined(prefix: &str, tail: &str) -> (r: String)
    ensures
        r@ == prefix@ + tail@,
{
    let mut r = String::from_str(prefix);
    r.append(tail);
    r
}

impl ArchiveError {
    /// The message that describes the error to the user.
    pub fn message(&self) -> (r: String)
        ensures
            r@ == error_message(*self),
    {
        match self {
            ArchiveError::NotFound(s) => joined("File not found: ", s.as_str()),
            ArchiveError::UnsupportedFormat => String::from_str("Unsupported archive format"),
            ArchiveError::Corrupt(s) => joined("Archive is corrupt: ", s.as_str()),
            ArchiveError::WrongPassword => String::from_str("Wrong password"),
            ArchiveError::EncryptedArchiveRequiresPassword => String::from_str(
                "Archive is encrypted - password required",
            ),
            ArchiveError::Io(s) => joined("I/O error: ", s.as_str()),
            ArchiveError::Internal(s) => joined("Internal error: ", s.as_str()),
            ArchiveError::Canceled => String::from_str("Operation canceled"),
            ArchiveError::UnsupportedOperation => String::from_str(
                "Operation not supported for this archive format",
            ),
            ArchiveError::ReadOnlyArchive => String::from_str("Archive is not writable"),
        }
    }
}

/// Archive-level properties.
#[derive(Debug, Clone)]
pub struct ArchiveProperties {
    pub items_count: u32,
    pub folders_count: u32,
    pub files_count: u32,
    pub total_size: u64,
    pub packed_size: u64,
    pub is_encrypted: bool,
    pub has_encrypted_items: bool,
    pub is_multi_volume: bool,
    pub is_solid: bool,
    pub encrypted_names: bool,
    pub has_comment: bool,
    pub comment_size: Option<usize>,
    pub has_recovery_record: bool,
    pub locked: bool,
    pub dictionary_size: Option<u64>,
    pub headers_size: u64,
    pub volumes_count: u32,
}

impl Default for ArchiveProperties {
    fn default() -> (r: Self)
        ensures
            r.items_count == 0,
            r.folders_count == 0,
            r.files_count == 0,
            r.total_size == 0,
            r.packed_size == 0,
            !r.is_encrypted,
            !r.has_encrypted_items,
            !r.is_multi_volume,
            !r.is_solid,
            !r.encrypted_names,
            !r.has_comment,
            r.comment_size is None,
            !r.has_recovery_record,
            !r.locked,
            r.dictionary_size is None,
            r.headers_size == 0,
            r.volumes_count == 0,
    {
        ArchiveProperties {
            items_count: 0,
            folders_count: 0,
            files_count: 0,
            total_size: 0,
            packed_size: 0,
            is_encrypted: false,
            has_encrypted_items: false,
            is_multi_volume: false,
            is_solid: false,
            encrypted_names: false,
            has_comment: false,
            comment_size: None,
            has_recovery_record: false,
            locked: false,
            dictionary_size: None,
            headers_size: 0,
            volumes_count: 0,
        }
    }
}

/// Core repository port for archive operations; adapters implement it over
/// an archive library. Paths are given as text.
pub trait ArchiveRepository {
    fn open(&self, path: &str, password: Option<&Password>) -> Result<ArchiveHandle, ArchiveError>;

    fn create(
        &self,
        path: &str,
        format: ArchiveFormat,
        encryption: Option<&EncryptionConfig>,
    ) -> Result<ArchiveHandle, ArchiveError>;

    fn list_page(&self, archive: &ArchiveHandle, offset: usize, limit: usize) -> Result<
        Page<ArchiveEntry>,
        ArchiveError,
    >;

    fn get_properties(&self, archive: &ArchiveHandle) -> Result<ArchiveProperties, ArchiveError>;

    fn extract(&self, archive: &ArchiveHandle, indices: &[u32], dest: &str) -> Result<(), ArchiveError>;

    fn extract_to_buffer(&self, archive: &ArchiveHandle, index: u32) -> Result<Vec<u8>, ArchiveError>;

    fn add(&self, archive: &mut ArchiveHandle, files: &[String], password: Option<&Password>) -> Result<
        (),
        ArchiveError,
    >;

    fn delete(&self, archive: &mut ArchiveHandle, indices: &[u32]) -> Result<(), ArchiveError>;

    fn rename(&self, archive: &mut ArchiveHandle, index: u32, new_name: &str) -> Result<(), ArchiveError>;

    fn test(&self, archive: &ArchiveHandle) -> Result<TestResult, ArchiveError>;

    fn close(&self, archive: ArchiveHandle);

    /// List direct children of `path` in the archive; `""` lists root-level
    /// items.
    fn list_directory(&self, archive: &ArchiveHandle, path: &str) -> Result<Vec<ArchiveEntry>, ArchiveError>;

    /// Add a single file to the archive at a specific archive-internal path.
    /// A repository that cannot do so refuses with `UnsupportedOperation`.
    fn add_file_to_path(
        &self,
        archive: &mut ArchiveHandle,
        file_path: &str,
        archive_path: &str,
        password: Option<&Password>,
    ) -> (r: Result<(), ArchiveError>)
        default_ensures
            r == Err::<(), ArchiveError>(ArchiveError::UnsupportedOperation),
            *final(archive) == *old(archive),
    {
        Err(ArchiveError::UnsupportedOperation)
    }
}

/// An outcome that `repo.open(path, password)` can have. A repository is a
/// port to the outside world, so the same call may have other outcomes too.
#[verifier::inline]
pub open spec fn open_outcome<R: ArchiveRepository>(
    repo: &R,
    path: &str,
    password: Option<&Password>,
    r: Result<ArchiveHandle, ArchiveError>,
) -> bool {
    call_ensures(R::open, (repo, path, password), r)
}

/// An outcome that `repo.create(path, format, encryption)` can have.
#[verifier::inline]
pub open spec fn create_outcome<R: ArchiveRepository>(
    repo: &R,
    path: &str,
    format: ArchiveFormat,
    encryption: Option<&EncryptionConfig>,
    r: Result<ArchiveHandle, ArchiveError>,
) -> bool {
    call_ensures(R::create, (repo, path, format, encryption), r)
}

/// An outcome that `repo.list_page(archive, offset, limit)` can have.
#[verifier::inline]
pub open spec fn list_page_outcome<R: ArchiveRepository>(
    repo: &R,
    archive: &ArchiveHandle,
    offset: usize,
    limit: usize,
    r: Result<Page<ArchiveEntry>, ArchiveError>,
) -> bool {
    call_ensures(R::list_page, (repo, archive, offset, limit), r)
}

/// An outcome that `repo.get_properties(archive)` can have.
#[verifier::inline]
pub open spec fn properties_outcome<R: ArchiveRepository>(
    repo: &R,
    archive: &ArchiveHandle,
    r: Result<ArchiveProperties, ArchiveError>,
) -> bool {
    call_ensures(R::get_properties, (repo, archive), r)
}

/// An outcome that `repo.extract(archive, indices, dest)` can have.
#[verifier::inline]
pub open spec fn extract_outcome<R: ArchiveRepository>(
    repo: &R,
    archive: &ArchiveHandle,
    indices: &[u32],
    dest: &str,
    r: Result<(), ArchiveError>,
) -> bool {
    call_ensures(R::extract, (repo, archive, indices, dest), r)
}

/// An outcome that `repo.extract_to_buffer(archive, index)` can have.
#[verifier::inline]
pub open spec fn buffer_outcome<R: ArchiveRepository>(
    repo: &R,
    archive: &ArchiveHandle,
    index: u32,
    r: Result<Vec<u8>, ArchiveError>,
) -> bool {
    call_ensures(R::extract_to_buffer, (repo, archive, index), r)
}

/// An outcome that `repo.add(archive, files, password)` can have, made
/// through the mutable reference `archive`.
#[verifier::inline]
pub open spec fn add_outcome<R: ArchiveRepository>(
    repo: &R,
    archive: &mut ArchiveHandle,
    files: &[String],
    password: Option<&Password>,
    r: Result<(), ArchiveError>,
) -> bool {
    call_ensures(R::add, (repo, archive, files, password), r)
}

/// An outcome that `repo.delete(archive, indices)` can have, made through
/// the mutable reference `archive`.
#[verifier::inline]
pub open spec fn delete_outcome<R: ArchiveRepository>(
    repo: &R,
    archive: &mut ArchiveHandle,
    indices: &[u32],
    r: Result<(), ArchiveError>,
) -> bool {
    call_ensures(R::delete, (repo, archive, indices), r)
}

/// An outcome that `repo.rename(archive, index, new_name)` can have, made
/// through the mutable reference `archive`.
#[verifier::inline]
pub open spec fn rename_outcome<R: ArchiveRepository>(
    repo: &R,
    archive: &mut ArchiveHandle,
    index: u32,
    new_name: &str,
    r: Result<(), ArchiveError>,
) -> bool {
    call_ensures(R::rename, (repo, archive, index, new_name), r)
}

/// An outcome that `repo.add_file_to_path(archive, file_path, archive_path,
/// password)` can have, made through the mutable reference `archive`.
#[verifier::inline]
pub open spec fn add_at_outcome<R: ArchiveRepository>(
    repo: &R,
    archive: &mut ArchiveHandle,
    file_path: &str,
    archive_path: &str,
    password: Option<&Password>,
    r: Result<(), ArchiveError>,
) -> bool {
    call_ensures(R::add_file_to_path, (repo, archive, file_path, archive_path, password), r)
}

/// An outcome that `repo.test(archive)` can have.
#[verifier::inline]
pub open spec fn test_outcome<R: ArchiveRepository>(
    repo: &R,
    archive: &ArchiveHandle,
    r: Result<TestResult, ArchiveError>,
) -> bool {
    call_ensures(R::test, (repo, archive), r)
}

/// An outcome that `repo.list_directory(archive, path)` can have.
#[verifier::inline]
pub open spec fn list_directory_outcome<R: ArchiveRepository>(
    repo: &R,
    archive: &ArchiveHandle,
    path: &str,
    r: Result<Vec<ArchiveEntry>, ArchiveError>,
) -> bool {
    call_ensures(R::list_directory, (repo, archive, path), r)
}

} // verus!
