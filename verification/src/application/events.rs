use crate::domain::archive::ArchiveHandle;
use vstd::prelude::*;

verus! {

/// Application-layer events emitted by view models and consumed by views.
pub enum ArchiveVmEvent {
    SelectionChanged(Option<(ArchiveHandle, u32)>),
    RequestShowExtract,
    RequestShowCreate,
    RequestTest,
}

} // verus!
