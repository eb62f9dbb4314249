use crate::domain::archive::ArchiveHandle;
use crate::domain::repository::{delete_outcome, ArchiveError, ArchiveRepository};
use vstd::prelude::*;

verus! {

/// Deletes entries through the repository.
pub struct DeleteEntriesUseCase<R> {
    repo: R,
}

impl<R: ArchiveRepository> DeleteEntriesUseCase<R> {
    /// The repository that the use case works through.
    pub closed spec fn repository(&self) -> R {
        self.repo
    }

    pub fn new(repo: R) -> (r: Self)
        ensures
            r.repository() == repo,
    {
        DeleteEntriesUseCase { repo }
    }

    /// Deletes the entries `indices`: the outcome, and what becomes of the
    /// archive, are the repository's.
    pub fn execute(&self, archive: &mut ArchiveHandle, indices: &[u32]) -> (r: Result<(), ArchiveError>)
        ensures
            exists|m: &mut ArchiveHandle|
                *m == *old(archive) && *final(m) == *final(archive) && delete_outcome(
                    &self.repository(),
                    m,
                    indices,
                    r,
                ),
    {
        self.repo.delete(archive, indices)
    }
}

} // verus!
