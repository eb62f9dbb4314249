use crate::domain::archive::{ArchiveFormat, ArchiveHandle, EncryptionConfig};
use crate::domain::repository::{create_outcome, ArchiveError, ArchiveRepository};
use vstd::prelude::*;

verus! {

/// What a new archive is to be.
pub struct CreateArchiveInput {
    pub destination: String,
    pub format: ArchiveFormat,
    pub compression_level: u8,
    pub encryption: Option<EncryptionConfig>,
}

/// Creates archives through the repository.
pub struct CreateArchiveUseCase<R> {
    repo: R,
}

impl<R: ArchiveRepository> CreateArchiveUseCase<R> {
    /// The repository that the use case works through.
    pub closed spec fn repository(&self) -> R {
        self.repo
    }

    pub fn new(repo: R) -> (r: Self)
        ensures
            r.repository() == repo,
    {
        CreateArchiveUseCase { repo }
    }

    /// Creates the archive that `input` describes: the outcome is the
    /// repository's, asked with the input's destination, format and
    /// encryption.
    pub fn execute(&self, input: &CreateArchiveInput) -> (r: Result<ArchiveHandle, ArchiveError>)
        ensures
            exists|dest: &str, enc: Option<&EncryptionConfig>|
                dest@ == input.destination@ && (enc is Some <==> input.encryption is Some) && (enc is Some
                    ==> enc->0 == input.encryption->0) && create_outcome(
                    &self.repository(),
                    dest,
                    input.format,
                    enc,
                    r,
                ),
    {
        let dest = input.destination.as_str();
        let enc = input.encryption.as_ref();
        let r = self.repo.create(dest, input.format, enc);
        assert(create_outcome(&self.repository(), dest, input.format, enc, r));
        r
    }
}

} // verus!
