use crate::domain::archive::{ArchiveHandle, Password};
use crate::domain::repository::{add_at_outcome, ArchiveError, ArchiveRepository};
use vstd::prelude::*;
use vstd::string::*;

verus! {

broadcast use vstd::string::group_string_axioms;

/// The name of the empty file that stands for a new folder in an archive.
pub const PLACEHOLDER_NAME: &'static str = ".bit7z_keep";

/// `s` without the copies of `c` at its end.
pub open spec fn trim_end(s: Seq<char>, c: char) -> Seq<char>
    decreases s.len(),
{
    if s.len() > 0 && s.last() == c {
        trim_end(s.drop_last(), c)
    } else {
        s
    }
}

/// The folder path as entered, without its trailing '/' characters and then
/// without its trailing '\' characters.
pub open spec fn trimmed_folder(path: Seq<char>) -> Seq<char> {
    trim_end(trim_end(path, '/'), '\\')
}

/// The length of `s` without the copies of `c` at its end.
fn trimmed_len(s: &str, len: usize, c: char) -> (r: usize)
    requires
        len <= s@.len(),
    ensures
        r <= len,
        s@.subrange(0, r as int) == trim_end(s@.subrange(0, len as int), c),
    decreases len,
{
    if len > 0 && s.get_char(len - 1) == c {
        assert(s@.subrange(0, len as int).drop_last() =~= s@.subrange(0, len - 1));
        trimmed_len(s, len - 1, c)
    } else {
        len
    }
}

/// The archive path of the placeholder that makes a new folder: the trimmed
/// folder path, '/', and the placeholder's name. An empty trimmed path is
/// refused.
pub fn folder_entry_path(folder_path: &str) -> (r: Result<String, ArchiveError>)
    ensures
        trimmed_folder(folder_path@).len() == 0 ==> (r matches Err(ArchiveError::Internal(m)) && m@
            == "folder_path must not be empty"@),
        trimmed_folder(folder_path@).len() > 0 ==> (r matches Ok(p) && p@ == trimmed_folder(
            folder_path@,
        ) + "/"@ + PLACEHOLDER_NAME@),
{
    let n = folder_path.unicode_len();
    assert(folder_path@.subrange(0, n as int) =~= folder_path@);
    let k1 = trimmed_len(folder_path, n, '/');
    let k2 = trimmed_len(folder_path, k1, '\\');
    assert(folder_path@.subrange(0, k2 as int) == trimmed_folder(folder_path@));
    if k2 == 0 {
        return Err(ArchiveError::Internal(String::from_str("folder_path must not be empty")));
    }
    let mut r = String::from_str(folder_path.substring_char(0, k2));
    r.append("/");
    r.append(PLACEHOLDER_NAME);
    Ok(r)
}

/// Makes a new folder in the archive by adding the placeholder file
/// `placeholder_file` (an empty file on disk) at `<folder>/.bit7z_keep`.
/// An empty folder path is refused before the repository is asked.
pub fn new_folder<R: ArchiveRepository>(
    repo: &R,
    archive: &mut ArchiveHandle,
    folder_path: &str,
    placeholder_file: &str,
    _password: Option<&Password>,
) -> (r: Result<(), ArchiveError>)
    ensures
        trimmed_folder(folder_path@).len() == 0 ==> (r matches Err(ArchiveError::Internal(m)) && m@
            == "folder_path must not be empty"@),
        trimmed_folder(folder_path@).len() == 0 ==> *final(archive) == *old(archive),
        trimmed_folder(folder_path@).len() > 0 ==> exists|m: &mut ArchiveHandle, at: &str|
            *m == *old(archive) && *final(m) == *final(archive) && at@ == trimmed_folder(folder_path@) + "/"@
                + PLACEHOLDER_NAME@ && add_at_outcome(repo, m, placeholder_file, at, None, r),
{
    let inner = match folder_entry_path(folder_path) {
        Ok(p) => p,
        Err(e) => return Err(e),
    };
    let at = inner.as_str();
    repo.add_file_to_path(archive, placeholder_file, at, None)
}

} // verus!
