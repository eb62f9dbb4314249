use crate::domain::archive::ArchiveHandle;
use crate::domain::repository::{extract_outcome, ArchiveError, ArchiveRepository};
use vstd::prelude::*;

verus! {

/// Extracts entries through the repository.
pub struct ExtractEntriesUseCase<R> {
    repo: R,
}

impl<R: ArchiveRepository> ExtractEntriesUseCase<R> {
    /// The repository that the use case works through.
    pub closed spec fn repository(&self) -> R {
        self.repo
    }

    pub fn new(repo: R) -> (r: Self)
        ensures
            r.repository() == repo,
    {
        ExtractEntriesUseCase { repo }
    }

    /// Extracts the entries `indices` into `dest`: the outcome is the
    /// repository's.
    pub fn execute(&self, archive: &ArchiveHandle, indices: &[u32], dest: &str) -> (r: Result<(), ArchiveError>)
        ensures
            extract_outcome(&self.repository(), archive, indices, dest, r),
    {
        self.repo.extract(archive, indices, dest)
    }
}

} // verus!
