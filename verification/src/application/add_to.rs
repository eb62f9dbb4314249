use crate::domain::archive::ArchiveHandle;
use crate::domain::repository::{add_outcome, ArchiveError, ArchiveRepository};
use vstd::prelude::*;

verus! {

/// The position of the first file that does not exist, if any.
pub fn find_missing(present: &[bool]) -> (r: Option<usize>)
    ensures
        match r {
            Some(i) => i < present@.len() && !present@[i as int] && forall|j: int| 0 <= j < i ==> present@[j],
            None => forall|j: int| 0 <= j < present@.len() ==> present@[j],
        },
{
    let n = present.len();
    let mut i: usize = 0;
    while i < n
        invariant
            n == present@.len(),
            i <= n,
            forall|j: int| 0 <= j < i ==> present@[j],
        decreases n - i,
    {
        if !present[i] {
            return Some(i);
        }
        i = i + 1;
    }
    None
}

/// Adds files from disk to an archive through the repository.
pub struct AddToArchiveUseCase<R> {
    repo: R,
}

impl<R: ArchiveRepository> AddToArchiveUseCase<R> {
    /// The repository that the use case works through.
    pub closed spec fn repository(&self) -> R {
        self.repo
    }

    pub fn new(repo: R) -> (r: Self)
        ensures
            r.repository() == repo,
    {
        AddToArchiveUseCase { repo }
    }

    /// Adds `files` to the archive. `present[i]` tells whether `files[i]`
    /// exists on disk (as a file or a directory); the first one that does
    /// not is reported as not found and nothing is added.
    pub fn execute(&self, archive: &mut ArchiveHandle, files: &[String], present: &[bool]) -> (r: Result<
        (),
        ArchiveError,
    >)
        requires
            present@.len() == files@.len(),
        ensures
            forall|i: int|
                0 <= i < files@.len() && !present@[i] && (forall|j: int| 0 <= j < i ==> present@[j])
                    ==> (r matches Err(ArchiveError::NotFound(p)) && p@ == files@[i]@),
            (exists|i: int| 0 <= i < present@.len() && !present@[i]) ==> *final(archive) == *old(archive),
            (forall|i: int| 0 <= i < present@.len() ==> present@[i]) ==> exists|m: &mut ArchiveHandle|
                *m == *old(archive) && *final(m) == *final(archive) && add_outcome(
                    &self.repository(),
                    m,
                    files,
                    None,
                    r,
                ),
    {
        match find_missing(present) {
            Some(i) => Err(ArchiveError::NotFound(files[i].clone())),
            None => self.repo.add(archive, files, None),
        }
    }
}

} // verus!
