use crate::domain::archive::ArchiveHandle;
use crate::domain::repository::{rename_outcome, ArchiveError, ArchiveRepository};
use vstd::prelude::*;

verus! {

/// Renames entries through the repository.
pub struct RenameEntryUseCase<R> {
    repo: R,
}

impl<R: ArchiveRepository> RenameEntryUseCase<R> {
    /// The repository that the use case works through.
    pub closed spec fn repository(&self) -> R {
        self.repo
    }

    pub fn new(repo: R) -> (r: Self)
        ensures
            r.repository() == repo,
    {
        RenameEntryUseCase { repo }
    }

    /// Renames entry `index` to `new_name`: the outcome, and what becomes of
    /// the archive, are the repository's.
    pub fn execute(&self, archive: &mut ArchiveHandle, index: u32, new_name: &str) -> (r: Result<(), ArchiveError>)
        ensures
            exists|m: &mut ArchiveHandle|
                *m == *old(archive) && *final(m) == *final(archive) && rename_outcome(
                    &self.repository(),
                    m,
                    index,
                    new_name,
                    r,
                ),
    {
        self.repo.rename(archive, index, new_name)
    }
}

} // verus!
