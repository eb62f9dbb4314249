use crate::domain::archive::ArchiveFormat;
use vstd::prelude::*;
use vstd::string::*;

verus! {

/// How many recently opened archives the preferences remember.
pub const MAX_RECENT_FILES: usize = 10;

/// Archive-related preferences.
#[derive(Debug, Clone)]
pub struct ArchivePrefs {
    pub default_format: ArchiveFormat,
    pub default_compression_level: u8,
    pub default_encrypt_filenames: bool,
    pub recent_files: Vec<String>,
}

/// The texts of a list of strings.
pub open spec fn texts(v: Seq<String>) -> Seq<Seq<char>> {
    v.map_values(|s: String| s@)
}

/// The paths other than `path`.
pub open spec fn other_than(path: Seq<char>) -> spec_fn(Seq<char>) -> bool {
    |p: Seq<char>| p != path
}

/// The recent-files list after `path` was opened: `path` first, then the
/// earlier entries other than `path` in their order, cut to the first
/// `MAX_RECENT_FILES`.
pub open spec fn recent_after_open(recent: Seq<Seq<char>>, path: Seq<char>) -> Seq<Seq<char>> {
    let moved = seq![path] + recent.filter(other_than(path));
    if moved.len() <= MAX_RECENT_FILES {
        moved
    } else {
        moved.take(MAX_RECENT_FILES as int)
    }
}

impl Default for ArchivePrefs {
    fn default() -> (r: Self)
        ensures
            r.default_format == ArchiveFormat::SevenZip,
            r.default_compression_level == 5,
            r.default_encrypt_filenames,
            r.recent_files@.len() == 0,
    {
        ArchivePrefs {
            default_format: ArchiveFormat::SevenZip,
            default_compression_level: 5,
            default_encrypt_filenames: true,
            recent_files: Vec::new(),
        }
    }
}

impl ArchivePrefs {
    /// Records that `path` was opened: it moves to the front of the recent
    /// files, appears there once, and the list keeps at most
    /// `MAX_RECENT_FILES` entries.
    pub fn add_recent(&mut self, path: String)
        ensures
            texts(final(self).recent_files@) == recent_after_open(texts(old(self).recent_files@), path@),
            final(self).default_format == old(self).default_format,
            final(self).default_compression_level == old(self).default_compression_level,
            final(self).default_encrypt_filenames == old(self).default_encrypt_filenames,
    {
        let ghost old_texts = texts(self.recent_files@);
        let ghost pred = other_than(path@);
        let mut kept: Vec<String> = Vec::new();
        kept.push(path.clone());
        let n = self.recent_files.len();
        let mut i: usize = 0;
        while i < n
            invariant
                n == self.recent_files@.len(),
                i <= n,
                old_texts == texts(self.recent_files@),
                pred == other_than(path@),
                texts(kept@) == seq![path@] + old_texts.take(i as int).filter(pred),
            decreases n - i,
        {
            proof {
                let t = old_texts.take(i + 1);
                assert(t.drop_last() =~= old_texts.take(i as int));
                assert(t.last() == old_texts[i as int]);
                assert(t.filter(pred) == (if pred(t.last()) {
                    t.drop_last().filter(pred).push(t.last())
                } else {
                    t.drop_last().filter(pred)
                })) by {
                    reveal_with_fuel(Seq::filter, 1);
                }
            }
            let same = self.recent_files[i] == path;
            assert(same == (old_texts[i as int] == path@));
            if !same {
                let ghost before = texts(kept@);
                kept.push(self.recent_files[i].clone());
                proof {
                    assert(texts(kept@) =~= before.push(self.recent_files@[i as int]@));
                    assert(texts(kept@) =~= seq![path@] + old_texts.take(i + 1).filter(pred));
                }
            } else {
                assert(texts(kept@) =~= seq![path@] + old_texts.take(i + 1).filter(pred));
            }
            i = i + 1;
        }
        proof {
            assert(old_texts.take(n as int) =~= old_texts);
        }
        if kept.len() > MAX_RECENT_FILES {
            let ghost before = texts(kept@);
            kept.truncate(MAX_RECENT_FILES);
            proof {
                assert(texts(kept@) =~= before.take(MAX_RECENT_FILES as int));
            }
        }
        self.recent_files = kept;
    }
}

/// Preview preferences.
#[derive(Debug, Clone)]
pub struct PreviewPrefs {
    pub text_max_bytes: usize,
    pub hex_dump_bytes: usize,
    pub auto_preview: bool,
}

impl Default for PreviewPrefs {
    fn default() -> (r: Self)
        ensures
            r.text_max_bytes == 1_048_576,
            r.hex_dump_bytes == 4096,
            r.auto_preview,
    {
        PreviewPrefs { text_max_bytes: 1_048_576, hex_dump_bytes: 4096, auto_preview: true }
    }
}

/// User-interface preferences.
#[derive(Debug, Clone)]
pub struct UiPrefs {
    pub minimize_to_tray: bool,
    pub confirm_delete: bool,
    pub language: String,
}

impl Default for UiPrefs {
    fn default() -> (r: Self)
        ensures
            r.minimize_to_tray,
            r.confirm_delete,
            r.language@ == "en"@,
    {
        UiPrefs {
            minimize_to_tray: true,
            confirm_delete: true,
            language: String::from_str("en"),
        }
    }
}

} // verus!
