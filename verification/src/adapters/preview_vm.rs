//! The preview panel's state: whether a preview is being read, and what it
//! shows once read.
use crate::application::preview::PreviewData;
use crate::domain::repository::ArchiveError;
use vstd::prelude::*;

verus! {

/// The preview panel: the preview shown, whether one is being read, and how
/// many bytes of an entry a preview reads.
pub struct PreviewViewModel {
    pub data: Option<PreviewData>,
    pub is_loading: bool,
    pub max_bytes: usize,
}

impl PreviewViewModel {
    /// An empty panel whose previews read at most `max_bytes` bytes.
    pub fn new(max_bytes: usize) -> (r: Self)
        ensures
            r.data is None,
            !r.is_loading,
            r.max_bytes == max_bytes,
    {
        PreviewViewModel { data: None, is_loading: false, max_bytes }
    }

    /// A preview is being read; the previous one stays until it arrives.
    pub fn start_load(&mut self)
        ensures
            final(self).is_loading,
            final(self).data == old(self).data,
            final(self).max_bytes == old(self).max_bytes,
    {
        self.is_loading = true;
    }

    /// The read has ended: its preview is shown, or nothing where it failed.
    pub fn finish_load(&mut self, result: Result<PreviewData, ArchiveError>)
        ensures
            !final(self).is_loading,
            final(self).max_bytes == old(self).max_bytes,
            result matches Ok(d) ==> final(self).data == Some(d),
            result is Err ==> final(self).data is None,
    {
        self.is_loading = false;
        match result {
            Ok(d) => self.data = Some(d),
            Err(_) => self.data = None,
        }
    }

    /// Nothing is shown.
    pub fn clear(&mut self)
        ensures
            final(self).data is None,
            !final(self).is_loading,
            final(self).max_bytes == old(self).max_bytes,
    {
        self.data = None;
        self.is_loading = false;
    }
}

} // verus!
