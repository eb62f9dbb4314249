use crate::domain::archive::ArchiveHandle;
use crate::domain::repository::{buffer_outcome, ArchiveError, ArchiveRepository};
use crate::text::utf8_string;
use vstd::prelude::*;
use vstd::utf8::{decode_utf8, valid_utf8};

verus! {

broadcast use vstd::string::group_string_axioms;

/// What a preview shows of an entry.
#[derive(Debug, Clone, PartialEq)]
pub enum PreviewData {
    Text(String),
    Hex(Vec<u8>),
    Image(Vec<u8>),
    Unsupported(String),
}

/// The first `max` bytes (all of them where there are fewer).
pub open spec fn truncated(data: Seq<u8>, max: nat) -> Seq<u8> {
    if data.len() <= max {
        data
    } else {
        data.take(max as int)
    }
}

/// Starts with the PNG signature or, being at least four bytes long, with the
/// JPEG one.
pub open spec fn looks_like_image(t: Seq<u8>) -> bool {
    &&& t.len() >= 4
    &&& ((t[0] == 0x89u8 && t[1] == 0x50u8 && t[2] == 0x4eu8 && t[3] == 0x47u8) || (t[0] == 0xffu8
        && t[1] == 0xd8u8 && t[2] == 0xffu8))
}

/// A printable ASCII character or ASCII whitespace.
pub open spec fn is_plain_char(c: char) -> bool {
    ('!' <= c && c <= '~') || c == ' ' || c == '\t' || c == '\n' || c == '\x0C' || c == '\r'
}

/// Every character is printable ASCII or ASCII whitespace.
pub open spec fn all_plain(text: Seq<char>) -> bool {
    forall|i: int| 0 <= i < text.len() ==> is_plain_char(#[trigger] text[i])
}

/// Data shown as text: valid UTF-8 that is plain, or shorter than 1024 bytes.
pub open spec fn shows_as_text(t: Seq<u8>) -> bool {
    valid_utf8(t) && (all_plain(decode_utf8(t)) || t.len() < 1024)
}

/// Whether every character of the text is printable ASCII or ASCII
/// whitespace.
pub fn is_plain_text(text: &str) -> (r: bool)
    ensures
        r == all_plain(text@),
{
    let mut plain = true;
    for c in it: text.chars()
        invariant
            plain == (forall|k: int| 0 <= k < it.index() ==> is_plain_char(#[trigger] it.seq()[k])),
    {
        let ok = ('!' <= c && c <= '~') || c == ' ' || c == '\t' || c == '\n' || c == '\x0C' || c
            == '\r';
        if !ok {
            plain = false;
        }
    }
    plain
}

/// `d` shows the first `max` bytes of `bytes`: as an image where they start
/// with a PNG or JPEG signature, else as text where they are valid UTF-8 and
/// either plain or shorter than 1024 bytes, else as a hex dump.
pub open spec fn preview_of(bytes: Seq<u8>, max: nat, d: PreviewData) -> bool {
    let t = truncated(bytes, max);
    if looks_like_image(t) {
        d matches PreviewData::Image(v) && v@ == t
    } else if shows_as_text(t) {
        d matches PreviewData::Text(s) && s@ == decode_utf8(t)
    } else {
        d matches PreviewData::Hex(v) && v@ == t
    }
}

/// Chooses how to show the first `max_bytes` bytes of an entry: as an image
/// where they start with a PNG or JPEG signature, else as text where they are
/// valid UTF-8 and either plain or shorter than 1024 bytes, else as a hex
/// dump.
pub fn classify_preview(bytes: Vec<u8>, max_bytes: usize) -> (r: PreviewData)
    ensures
        preview_of(bytes@, max_bytes as nat, r),
{
    let mut t = bytes;
    if t.len() > max_bytes {
        t.truncate(max_bytes);
    }
    let ghost tv = t@;
    assert(tv == truncated(bytes@, max_bytes as nat));
    if t.len() >= 4 {
        if (t[0] == 0x89u8 && t[1] == 0x50u8 && t[2] == 0x4eu8 && t[3] == 0x47u8) || (t[0] == 0xffu8
            && t[1] == 0xd8u8 && t[2] == 0xffu8) {
            return PreviewData::Image(t);
        }
    }
    let n = t.len();
    match utf8_string(t.clone()) {
        Some(text) => {
            if is_plain_text(text.as_str()) || n < 1024 {
                return PreviewData::Text(text);
            }
        },
        None => {},
    }
    PreviewData::Hex(t)
}

/// An outcome of previewing entry `index`: the repository's read of it
/// fails with that error, or it gives bytes whose first `max` the preview
/// shows (see `preview_of`).
pub open spec fn entry_preview_outcome<R: ArchiveRepository>(
    repo: &R,
    archive: &ArchiveHandle,
    index: u32,
    max: nat,
    r: Result<PreviewData, ArchiveError>,
) -> bool {
    match r {
        Ok(d) => exists|bytes: Vec<u8>| buffer_outcome(repo, archive, index, Ok(bytes)) && preview_of(bytes@, max, d),
        Err(e) => buffer_outcome(repo, archive, index, Err(e)),
    }
}

/// Previews entries of an archive.
pub struct PreviewEntryUseCase<R> {
    repo: R,
}

impl<R: ArchiveRepository> PreviewEntryUseCase<R> {
    /// The repository that the use case works through.
    pub closed spec fn repository(&self) -> R {
        self.repo
    }

    pub fn new(repo: R) -> (r: Self)
        ensures
            r.repository() == repo,
    {
        PreviewEntryUseCase { repo }
    }

    /// Reads entry `index` through the repository and classifies its first
    /// `max_bytes` bytes (see `classify_preview`); a failed read is passed on.
    pub fn execute(&self, archive: &ArchiveHandle, index: u32, max_bytes: usize) -> (r: Result<
        PreviewData,
        ArchiveError,
    >)
        ensures
            entry_preview_outcome(&self.repository(), archive, index, max_bytes as nat, r),
    {
        let read = self.repo.extract_to_buffer(archive, index);
        assert(buffer_outcome(&self.repository(), archive, index, read));
        match read {
            Ok(bytes) => {
                let d = classify_preview(bytes, max_bytes);
                assert(entry_preview_outcome(&self.repository(), archive, index, max_bytes as nat, Ok(d))) by {
                    assert(buffer_outcome(&self.repository(), archive, index, read));
                }
                Ok(d)
            },
            Err(e) => Err(e),
        }
    }
}

} // verus!
