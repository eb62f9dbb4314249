use crate::domain::archive::{ArchiveHandle, Password};
use crate::domain::repository::{
    open_outcome, properties_outcome, ArchiveError, ArchiveProperties, ArchiveRepository,
};
use vstd::prelude::*;

verus! {

/// An opened archive and its properties.
pub struct OpenArchiveOutput {
    pub handle: ArchiveHandle,
    pub properties: ArchiveProperties,
}

/// An outcome of opening the archive at `path` and reading its properties:
/// both calls succeed and give the output, or the open fails, or it
/// succeeds and reading the properties fails.
pub open spec fn open_archive_outcome<R: ArchiveRepository>(
    repo: &R,
    path: &str,
    password: Option<&Password>,
    r: Result<OpenArchiveOutput, ArchiveError>,
) -> bool {
    match r {
        Ok(out) => open_outcome(repo, path, password, Ok(out.handle)) && properties_outcome(
            repo,
            &out.handle,
            Ok(out.properties),
        ),
        Err(e) => open_outcome(repo, path, password, Err(e)) || exists|h: ArchiveHandle|
            open_outcome(repo, path, password, Ok(h)) && properties_outcome(repo, &h, Err(e)),
    }
}

/// Opens archives through the repository.
pub struct OpenArchiveUseCase<R> {
    repo: R,
}

impl<R: ArchiveRepository> OpenArchiveUseCase<R> {
    /// The repository that the use case works through.
    pub closed spec fn repository(&self) -> R {
        self.repo
    }

    pub fn new(repo: R) -> (r: Self)
        ensures
            r.repository() == repo,
    {
        OpenArchiveUseCase { repo }
    }

    /// Opens the archive at `path` and reads its properties; the first
    /// failure is passed on.
    pub fn execute(&self, path: &str, password: Option<&Password>) -> (r: Result<OpenArchiveOutput, ArchiveError>)
        ensures
            open_archive_outcome(&self.repository(), path, password, r),
    {
        let opened = self.repo.open(path, password);
        let handle = match opened {
            Ok(h) => h,
            Err(e) => return Err(e),
        };
        let read = self.repo.get_properties(&handle);
        assert(properties_outcome(&self.repository(), &handle, read));
        match read {
            Ok(properties) => Ok(OpenArchiveOutput { handle, properties }),
            Err(e) => Err(e),
        }
    }
}

} // verus!
