//! Events that the browser's views send to the window.
use crate::domain::archive::ArchiveHandle;
use vstd::prelude::*;

verus! {

/// UI events emitted by view models and consumed by views.
#[derive(Debug, Clone)]
pub enum ArchiveVmEvent {
    SelectionChanged(Option<(ArchiveHandle, u32)>),
    RequestShowExtract,
    RequestShowCreate,
    RequestShowAdd,
    RequestShowSettings,
    RequestTest,
    RequestDelete,
    RequestAddFiles,
    RequestTestEntries { selected_only: bool },
    RequestRename { index: u32, new_name: String },
    RequestNewFolder,
    RequestNewFile,
    RequestOpenEntry,
    RequestViewEntry,
    RequestEditEntry,
    RequestProperties,
    RequestChecksum { algorithm: ChecksumAlgorithm },
    RequestPassword { path: String },
    RefreshListing,
}

/// The checksums that can be asked for.
#[derive(Debug, Clone, Copy, PartialEq, Eq, Structural)]
pub enum ChecksumAlgorithm {
    Crc32,
    Md5,
    Sha1,
    Sha256,
}

/// The name of a checksum as the progress message shows it.
pub open spec fn checksum_name(a: ChecksumAlgorithm) -> Seq<char> {
    match a {
        ChecksumAlgorithm::Crc32 => "CRC32"@,
        ChecksumAlgorithm::Md5 => "MD5"@,
        ChecksumAlgorithm::Sha1 => "SHA1"@,
        ChecksumAlgorithm::Sha256 => "SHA256"@,
    }
}

impl ChecksumAlgorithm {
    /// The name shown for the checksum.
    pub fn label(&self) -> (r: &'static str)
        ensures
            r@ == checksum_name(*self),
    {
        match self {
            ChecksumAlgorithm::Crc32 => "CRC32",
            ChecksumAlgorithm::Md5 => "MD5",
            ChecksumAlgorithm::Sha1 => "SHA1",
            ChecksumAlgorithm::Sha256 => "SHA256",
        }
    }
}

} // verus!
