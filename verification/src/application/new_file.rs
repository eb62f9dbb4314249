use crate::application::add_to::AddToArchiveUseCase;
use crate::domain::archive::ArchiveHandle;
use crate::domain::repository::{add_outcome, ArchiveError, ArchiveRepository};
use vstd::prelude::*;

verus! {

/// A file that was handed to an editor counts as modified when its size or
/// its modification time (nanoseconds from the Unix epoch) changed.
pub open spec fn modified_between(before_size: u64, before_modified: i128, after_size: u64, after_modified: i128) -> bool {
    before_size != after_size || before_modified != after_modified
}

/// Whether the file changed while it was in the editor (see
/// `modified_between`).
pub fn file_was_modified(before_size: u64, before_modified: i128, after_size: u64, after_modified: i128) -> (r: bool)
    ensures
        r == modified_between(before_size, before_modified, after_size, after_modified),
{
    after_size != before_size || after_modified != before_modified
}

/// What the editor left of a new file: it is added to the archive only where
/// it was modified (see `modified_between`); an untouched file is dropped
/// and the archive is left as it was.
pub fn add_edited_file<R: ArchiveRepository>(
    repo: R,
    archive: &mut ArchiveHandle,
    temp_path: String,
    before_size: u64,
    before_modified: i128,
    after_size: u64,
    after_modified: i128,
) -> (r: Result<(), ArchiveError>)
    ensures
        !modified_between(before_size, before_modified, after_size, after_modified) ==> r is Ok,
        !modified_between(before_size, before_modified, after_size, after_modified) ==> *final(archive)
            == *old(archive),
        modified_between(before_size, before_modified, after_size, after_modified) ==> exists|
            m: &mut ArchiveHandle,
            fs: &[String],
        |
            *m == *old(archive) && *final(m) == *final(archive) && fs@ == seq![temp_path] && add_outcome(
                &repo,
                m,
                fs,
                None,
                r,
            ),
{
    if file_was_modified(before_size, before_modified, after_size, after_modified) {
        let uc = AddToArchiveUseCase::new(repo);
        let files = vec![temp_path];
        let fs = files.as_slice();
        assert(fs@ == seq![temp_path]);
        let present = [true];
        assert(present@ == seq![true]);
        uc.execute(archive, fs, &present)
    } else {
        Ok(())
    }
}

} // verus!
