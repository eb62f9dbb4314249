//! The decisions of the repository that is backed by the archive library:
//! which writer format an archive gets, how listings are paged and named,
//! how the library's test and item data become results and properties, and
//! how overwrite questions are answered.
use crate::adapters::bit7z::WriterFormat;
use crate::application::test::{index_label, well_formed_result};
use crate::domain::archive::{
    extension_of, occurs_in, opt_view, plain_path, ArchiveFormat, OverwriteMode, TestFailure, TestFailureReason, TestResult,
};
use crate::domain::repository::{ArchiveError, ArchiveProperties};
use crate::text::decimal_text;
use vstd::prelude::*;
use vstd::string::*;

verus! {

broadcast use vstd::string::group_string_axioms;

/// Whether the cached listing of an archive is current.
#[derive(Debug, Clone, Copy, PartialEq, Eq, Structural)]
pub enum CacheState {
    Valid,
    Dirty,
}

/// The writer format of a format, where the library can write it.
pub open spec fn writer_format_of(f: ArchiveFormat) -> Option<WriterFormat> {
    match f {
        ArchiveFormat::SevenZip => Some(WriterFormat::SevenZip),
        ArchiveFormat::Zip => Some(WriterFormat::Zip),
        ArchiveFormat::Tar => Some(WriterFormat::Tar),
        ArchiveFormat::TarGz => Some(WriterFormat::GZip),
        ArchiveFormat::TarBz2 => Some(WriterFormat::BZip2),
        ArchiveFormat::TarXz => Some(WriterFormat::Xz),
        ArchiveFormat::Rar => None,
    }
}

/// The writer format for creating an archive; RAR archives cannot be
/// written.
pub fn writer_format_for(format: ArchiveFormat) -> (r: Result<WriterFormat, ArchiveError>)
    ensures
        match writer_format_of(format) {
            Some(w) => r == Ok::<WriterFormat, ArchiveError>(w),
            None => r == Err::<WriterFormat, ArchiveError>(ArchiveError::UnsupportedOperation),
        },
{
    match format {
        ArchiveFormat::SevenZip => Ok(WriterFormat::SevenZip),
        ArchiveFormat::Zip => Ok(WriterFormat::Zip),
        ArchiveFormat::Tar => Ok(WriterFormat::Tar),
        ArchiveFormat::TarGz => Ok(WriterFormat::GZip),
        ArchiveFormat::TarBz2 => Ok(WriterFormat::BZip2),
        ArchiveFormat::TarXz => Ok(WriterFormat::Xz),
        ArchiveFormat::Rar => Err(ArchiveError::UnsupportedOperation),
    }
}

/// The writer format named by a (lowercase) file extension.
pub open spec fn format_of_extension(ext: Seq<char>) -> Option<WriterFormat> {
    if ext == "7z"@ {
        Some(WriterFormat::SevenZip)
    } else if ext == "zip"@ {
        Some(WriterFormat::Zip)
    } else if ext == "tar"@ {
        Some(WriterFormat::Tar)
    } else if ext == "gz"@ || ext == "tgz"@ {
        Some(WriterFormat::GZip)
    } else if ext == "bz2"@ || ext == "tbz"@ || ext == "tbz2"@ {
        Some(WriterFormat::BZip2)
    } else if ext == "xz"@ || ext == "txz"@ {
        Some(WriterFormat::Xz)
    } else {
        None
    }
}

/// The writer format named by a lowercase extension, if any.
pub fn extension_writer_format(ext: &str) -> (r: Option<WriterFormat>)
    ensures
        r == format_of_extension(ext@),
{
    let e = String::from_str(ext);
    if e == String::from_str("7z") {
        Some(WriterFormat::SevenZip)
    } else if e == String::from_str("zip") {
        Some(WriterFormat::Zip)
    } else if e == String::from_str("tar") {
        Some(WriterFormat::Tar)
    } else if e == String::from_str("gz") || e == String::from_str("tgz") {
        Some(WriterFormat::GZip)
    } else if e == String::from_str("bz2") || e == String::from_str("tbz") || e == String::from_str(
        "tbz2",
    ) {
        Some(WriterFormat::BZip2)
    } else if e == String::from_str("xz") || e == String::from_str("txz") {
        Some(WriterFormat::Xz)
    } else {
        None
    }
}

/// The lowercase form of a text, as Unicode defines it.
pub uninterp spec fn lowercase_of(s: Seq<char>) -> Seq<char>;

/// Calls `str::to_lowercase`, the Unicode lowercase form of a text.
#[verifier::external_body]
pub(crate) fn lowercase(s: &str) -> (r: String)
    ensures
        r@ == lowercase_of(s@),
{
    s.to_lowercase()
}

/// Calls `std::path::Path::extension` on a path given as text. An extension,
/// where there is one, is a run of the path's own text; for a plain path it
/// is the one that `extension_of` names, as the documentation of `extension`
/// gives it. Of other paths, whose reading depends on the platform (a
/// verbatim Windows path splits only at '\\'), no clause says which run it
/// is.
#[verifier::external_body]
fn path_extension(path: &str) -> (r: Option<String>)
    ensures
        r matches Some(e) ==> occurs_in(e@, path@),
        plain_path(path@) ==> opt_view(r) == extension_of(path@),
{
    std::path::Path::new(path).extension().map(|e| e.to_string_lossy().to_string())
}

/// The writer format for an (optional) extension: the one that its
/// lowercase form names, 7z where it names none or there is none.
pub open spec fn writer_format_of_ext(ext: Option<Seq<char>>) -> WriterFormat {
    match ext {
        Some(e) => match format_of_extension(lowercase_of(e)) {
            Some(w) => w,
            None => WriterFormat::SevenZip,
        },
        None => WriterFormat::SevenZip,
    }
}

/// The writer format of an archive to be rewritten, from the lowercase of
/// its path's extension; 7z where the extension names none.
pub fn writer_format_for_extension(ext: Option<&str>) -> (r: WriterFormat)
    ensures
        r == writer_format_of_ext(
            match ext {
                Some(e) => Some(e@),
                None => None,
            },
        ),
{
    match ext {
        Some(e) => {
            let lower = lowercase(e);
            match extension_writer_format(lower.as_str()) {
                Some(w) => w,
                None => WriterFormat::SevenZip,
            }
        },
        None => WriterFormat::SevenZip,
    }
}

/// The writer format of the archive at `path`, from its extension (see
/// `writer_format_for_extension`).
///
/// For a plain path the extension is the one that `extension_of` names; of
/// other paths, which follow the platform's path syntax, the result is the
/// format of some run of the path's own text, or 7z.
pub fn detect_writer_format(path: &str) -> (r: WriterFormat)
    ensures
        exists|e: Option<Seq<char>>|
            #![trigger writer_format_of_ext(e)]
            r == writer_format_of_ext(e) && (e matches Some(x) ==> occurs_in(x, path@)),
        plain_path(path@) ==> r == writer_format_of_ext(extension_of(path@)),
{
    match path_extension(path) {
        Some(e) => {
            let r = writer_format_for_extension(Some(e.as_str()));
            assert(r == writer_format_of_ext(Some(e@)));
            r
        },
        None => {
            let r = writer_format_for_extension(None);
            assert(r == writer_format_of_ext(None));
            r
        },
    }
}

/// Whether a path names a RAR archive: its lowercase form ends in ".rar".
pub fn is_rar_path(path: &str) -> (r: bool)
    ensures
        r == (lowercase_of(path@).len() >= 4 && lowercase_of(path@).subrange(
            lowercase_of(path@).len() - 4,
            lowercase_of(path@).len() as int,
        ) == ".rar"@),
{
    let lower = lowercase(path);
    let s = lower.as_str();
    let n = s.unicode_len();
    if n < 4 {
        return false;
    }
    let tail = s.substring_char(n - 4, n);
    let t = String::from_str(tail);
    t == String::from_str(".rar")
}

/// An archive whose headers are encrypted cannot be opened without a
/// password.
pub fn open_needs_password(is_header_encrypted: bool, password_given: bool) -> (r: Option<ArchiveError>)
    ensures
        r == (if is_header_encrypted && !password_given {
            Some(ArchiveError::EncryptedArchiveRequiresPassword)
        } else {
            None::<ArchiveError>
        }),
{
    if is_header_encrypted && !password_given {
        Some(ArchiveError::EncryptedArchiveRequiresPassword)
    } else {
        None
    }
}

/// The number by which an extraction's overwrite mode is handed to the
/// library's callbacks: overwrite 0, skip 1, rename 2, ask -1.
pub open spec fn mode_code(m: OverwriteMode) -> i32 {
    match m {
        OverwriteMode::Overwrite => 0,
        OverwriteMode::Skip => 1,
        OverwriteMode::RenameExtracted => 2,
        OverwriteMode::Ask => -1i32,
    }
}

pub fn overwrite_mode_code(m: OverwriteMode) -> (r: i32)
    ensures
        r == mode_code(m),
{
    match m {
        OverwriteMode::Overwrite => 0,
        OverwriteMode::Skip => 1,
        OverwriteMode::RenameExtracted => 2,
        OverwriteMode::Ask => -1,
    }
}

/// The answer of the overwrite callback for a mode code: overwrite (0) for
/// modes 0 and 2, skip (1) for mode 1, and `None` where the user must be
/// asked.
pub fn overwrite_choice(mode: i32) -> (r: Option<i32>)
    ensures
        r == (if mode == 0 || mode == 2 {
            Some(0i32)
        } else if mode == 1 {
            Some(1i32)
        } else {
            None::<i32>
        }),
{
    if mode == 0 || mode == 2 {
        Some(0)
    } else if mode == 1 {
        Some(1)
    } else {
        None
    }
}

/// A size in binary units as the humansize crate writes it ("1.5 KiB").
pub uninterp spec fn binary_size_text(n: u64) -> Seq<char>;

/// Calls `humansize::format_size` with the `BINARY` options.
#[verifier::external_body]
fn binary_size(n: u64) -> (r: String)
    ensures
        r@ == binary_size_text(n),
{
    humansize::format_size(n, humansize::BINARY)
}

/// A time (seconds since the epoch) as chrono writes its UTC date and time
/// with the pattern "%Y-%m-%d %H:%M:%S"; `None` where chrono cannot
/// represent it.
pub uninterp spec fn clock_time_text(secs: i64) -> Option<Seq<char>>;

/// Calls `chrono::DateTime::from_timestamp`, takes the naive date and time
/// and writes it with the pattern "%Y-%m-%d %H:%M:%S".
#[verifier::external_body]
fn clock_time(secs: i64) -> (r: Option<String>)
    ensures
        opt_view(r) == clock_time_text(secs),
{
    match chrono::DateTime::from_timestamp(secs, 0) {
        Some(d) => Some(d.naive_local().format("%Y-%m-%d %H:%M:%S").to_string()),
        None => None,
    }
}

/// The modification time of a file in an overwrite question: times before
/// the epoch count as the epoch, and a time that cannot be represented is
/// written as the epoch.
pub open spec fn file_time_text(ts: i64) -> Seq<char> {
    let secs: i64 = if ts >= 0 { ts } else { 0 };
    match clock_time_text(secs) {
        Some(t) => t,
        None => "1970-01-01 00:00:00"@,
    }
}

/// The modification time of a file as an overwrite question shows it.
pub fn file_time(ts: i64) -> (r: String)
    ensures
        r@ == file_time_text(ts),
{
    let secs: i64 = if ts >= 0 { ts } else { 0 };
    match clock_time(secs) {
        Some(t) => t,
        None => {
            proof {
                reveal_strlit("1970-01-01 00:00:00");
            }
            "1970-01-01 00:00:00".to_string()
        },
    }
}

/// The text of the question asked when an extracted file would replace an
/// existing one.
pub open spec fn overwrite_prompt_text(
    src: Seq<char>,
    dest: Seq<char>,
    existing_size: u64,
    src_size: u64,
    src_mtime: i64,
    dest_mtime: i64,
) -> Seq<char> {
    "File exists:\nSource: "@ + src + "\n  Size: "@ + binary_size_text(src_size) + "     Modified: "@
        + file_time_text(src_mtime) + "\nDest:   "@ + dest + "\n  Size: "@ + binary_size_text(
        existing_size,
    ) + "     Modified: "@ + file_time_text(dest_mtime)
        + "\n\nYes = Overwrite    No = Skip    Cancel = Overwrite"@
}

/// The question asked when an extracted file would replace an existing one:
/// both paths, with the size and modification time of each.
pub fn overwrite_prompt(
    src: &str,
    dest: &str,
    existing_size: u64,
    src_size: u64,
    src_mtime: i64,
    dest_mtime: i64,
) -> (r: String)
    ensures
        r@ == overwrite_prompt_text(src@, dest@, existing_size, src_size, src_mtime, dest_mtime),
{
    let mut out = String::new();
    out.append("File exists:\nSource: ");
    out.append(src);
    out.append("\n  Size: ");
    let a = binary_size(src_size);
    out.append(a.as_str());
    out.append("     Modified: ");
    let b = file_time(src_mtime);
    out.append(b.as_str());
    out.append("\nDest:   ");
    out.append(dest);
    out.append("\n  Size: ");
    let c = binary_size(existing_size);
    out.append(c.as_str());
    out.append("     Modified: ");
    let d = file_time(dest_mtime);
    out.append(d.as_str());
    out.append("\n\nYes = Overwrite    No = Skip    Cancel = Overwrite");
    proof {
        assert(out@ =~= overwrite_prompt_text(src@, dest@, existing_size, src_size, src_mtime, dest_mtime));
    }
    out
}

/// The position just after the last '/' of a text (0 where it has none).
pub open spec fn name_start(s: Seq<char>) -> int
    decreases s.len(),
{
    if s.len() == 0 {
        0
    } else if s.last() == '/' {
        s.len() as int
    } else {
        name_start(s.drop_last())
    }
}

proof fn lemma_name_start_bounds(s: Seq<char>)
    ensures
        0 <= name_start(s) <= s.len(),
    decreases s.len(),
{
    if s.len() > 0 && s.last() != '/' {
        lemma_name_start_bounds(s.drop_last());
    }
}

/// The name of an entry: the part of its path after the last '/'.
pub open spec fn entry_name_of(path: Seq<char>) -> Seq<char> {
    path.subrange(name_start(path), path.len() as int)
}

/// The name of an entry: the part of its path after the last '/'.
pub fn entry_name(path: &str) -> (r: String)
    ensures
        r@ == entry_name_of(path@),
{
    let n = path.unicode_len();
    let mut k: usize = n;
    assert(path@.subrange(0, n as int) =~= path@);
    while k > 0 && path.get_char(k - 1) != '/'
        invariant
            k <= n,
            n == path@.len(),
            name_start(path@.subrange(0, k as int)) == name_start(path@),
        decreases k,
    {
        assert(path@.subrange(0, k as int).drop_last() =~= path@.subrange(0, k - 1));
        k = k - 1;
    }
    proof {
        lemma_name_start_bounds(path@);
        if k > 0 {
            assert(path@.subrange(0, k as int).last() == '/');
        }
        assert(name_start(path@.subrange(0, k as int)) == k);
    }
    String::from_str(path.substring_char(k, n))
}

/// The index range that a page of a listing covers: from `offset` (cut to
/// 32 bits) to `limit` items further, both clamped to the item count.
pub fn page_bounds(offset: usize, limit: usize, count: u32) -> (r: (u32, u32))
    ensures
        r.0 == (if (offset as u32) < count {
            offset as u32
        } else {
            count
        }),
        r.1 == (if r.0 + (limit as u32) < count {
            (r.0 + (limit as u32)) as u32
        } else {
            count
        }),
        r.0 <= r.1 <= count,
{
    let off = offset as u32;
    let start = if off < count {
        off
    } else {
        count
    };
    let lim = limit as u32;
    let end = if (start as u64) + (lim as u64) < (count as u64) {
        start + lim
    } else {
        count
    };
    (start, end)
}

/// The message of a failed library test: the library's own, or "test
/// failed" where it gave none.
pub open spec fn test_error_text(error: Option<Seq<char>>) -> Seq<char> {
    match error {
        Some(e) => e,
        None => "test failed"@,
    }
}

/// The name of the `j`-th failure of a library test of `total` items.
pub open spec fn library_label(j: nat, total: nat) -> Seq<char> {
    if j < total {
        "index "@ + decimal_text(j)
    } else {
        "index "@ + decimal_text(j) + " (extra)"@
    }
}

/// How many failures a library test result lists.
pub open spec fn library_failure_count(all_ok: bool, total: u32, failed_count: u32) -> nat {
    if all_ok || failed_count == 0 {
        0
    } else if total > 0 {
        failed_count as nat
    } else {
        1
    }
}

/// A failure that the library reported for the item at `index`.
fn library_failure(entry_path: String, index: u32, error: &String) -> (r: TestFailure)
    ensures
        r.entry_path == entry_path,
        r.error@ == error@,
        r.index == index,
        r.path@.len() == 0,
        r.reason matches TestFailureReason::ReadError(m) && m@ == error@,
{
    TestFailure {
        entry_path,
        error: error.clone(),
        index: index as usize,
        path: String::new(),
        reason: TestFailureReason::ReadError(error.clone()),
    }
}

/// The result of the library's own test of an archive that has items:
/// `total` items of which `failed_count` failed, with the library's error
/// message (`None` where it gave none). Failures carry the indices
/// `0 .. failed_count`, those at or above `total` marked "(extra)"; where
/// the library counted no items, a single failure stands for them all.
pub fn library_test_result(all_ok: bool, total: u32, failed_count: u32, error: Option<String>) -> (r: TestResult)
    ensures
        r.total == total,
        r.passed == (if total >= failed_count {
            total - failed_count
        } else {
            0
        }),
        r.failed@.len() == library_failure_count(all_ok, total, failed_count),
        forall|i: int|
            0 <= i < r.failed@.len() ==> #[trigger] r.failed@[i].error@ == test_error_text(opt_view(error)),
        total > 0 ==> forall|i: int|
            #![trigger r.failed@[i]]
            0 <= i < r.failed@.len() ==> r.failed@[i].index == i && r.failed@[i].entry_path@
                == library_label(i as nat, total as nat),
        total == 0 && r.failed@.len() > 0 ==> r.failed@[0].index == 0 && r.failed@[0].entry_path@.len()
            == 0,
        failed_count <= total && (all_ok ==> failed_count == 0) ==> well_formed_result(r),
{
    let message = match error {
        Some(e) => e,
        None => String::from_str("test failed"),
    };
    let passed = total.saturating_sub(failed_count);
    let mut failures: Vec<TestFailure> = Vec::new();
    if !all_ok && failed_count > 0 {
        if total > 0 {
            let mut i: u32 = 0;
            while i < failed_count
                invariant
                    i <= failed_count,
                    total > 0,
                    failures@.len() == i,
                    forall|j: int| 0 <= j < failures@.len() ==> #[trigger] failures@[j].error@ == message@,
                    forall|j: int|
                        #![trigger failures@[j]]
                        0 <= j < failures@.len() ==> failures@[j].index == j
                            && failures@[j].entry_path@ == library_label(j as nat, total as nat),
                decreases failed_count - i,
            {
                let label = if i < total {
                    index_label(i)
                } else {
                    let mut l = index_label(i);
                    l.append(" (extra)");
                    l
                };
                let ghost before = failures@;
                failures.push(library_failure(label, i, &message));
                assert(forall|j: int| 0 <= j < before.len() ==> failures@[j] == before[j]);
                i = i + 1;
            }
        } else {
            failures.push(library_failure(String::new(), 0, &message));
        }
    }
    TestResult { total: total as usize, passed: passed as usize, failed: failures }
}

/// What the library reports of one item of an archive.
#[derive(Debug, Clone, Copy)]
pub struct ItemStat {
    pub is_dir: bool,
    pub size: u64,
    pub packed_size: u64,
}

/// Counts and sizes of the items of an archive.
#[derive(Debug, Clone, Copy)]
pub struct ItemTotals {
    pub folders: u32,
    pub files: u32,
    pub total_size: u64,
    pub packed_size: u64,
}

/// The number of directories among the items.
pub open spec fn dir_count(items: Seq<ItemStat>) -> nat
    decreases items.len(),
{
    if items.len() == 0 {
        0
    } else {
        dir_count(items.drop_last()) + (if items.last().is_dir {
            1nat
        } else {
            0nat
        })
    }
}

/// The sum of the unpacked sizes.
pub open spec fn size_sum(items: Seq<ItemStat>) -> nat
    decreases items.len(),
{
    if items.len() == 0 {
        0
    } else {
        size_sum(items.drop_last()) + (items.last().size as nat)
    }
}

/// The sum of the packed sizes.
pub open spec fn packed_sum(items: Seq<ItemStat>) -> nat
    decreases items.len(),
{
    if items.len() == 0 {
        0
    } else {
        packed_sum(items.drop_last()) + (items.last().packed_size as nat)
    }
}

/// A sum that cannot exceed the top of `u64`.
pub open spec fn capped(n: nat) -> u64 {
    if n <= u64::MAX {
        n as u64
    } else {
        u64::MAX
    }
}

proof fn lemma_dir_count_bound(items: Seq<ItemStat>)
    ensures
        dir_count(items) <= items.len(),
    decreases items.len(),
{
    if items.len() > 0 {
        lemma_dir_count_bound(items.drop_last());
    }
}

/// Counts the directories and files and sums the sizes (saturating at the
/// top of `u64`).
pub fn tally_items(items: &[ItemStat]) -> (r: ItemTotals)
    requires
        items@.len() <= u32::MAX,
    ensures
        r.folders == dir_count(items@),
        r.folders + r.files == items@.len(),
        r.total_size == capped(size_sum(items@)),
        r.packed_size == capped(packed_sum(items@)),
{
    let n = items.len();
    let mut folders: u32 = 0;
    let mut files: u32 = 0;
    let mut total_size: u64 = 0;
    let mut packed_size: u64 = 0;
    let mut i: usize = 0;
    while i < n
        invariant
            n == items@.len(),
            n <= u32::MAX,
            i <= n,
            folders == dir_count(items@.take(i as int)),
            folders + files == i,
            total_size == capped(size_sum(items@.take(i as int))),
            packed_size == capped(packed_sum(items@.take(i as int))),
        decreases n - i,
    {
        let it = items[i];
        proof {
            assert(items@.take(i + 1).drop_last() =~= items@.take(i as int));
            lemma_dir_count_bound(items@.take(i as int));
        }
        if it.is_dir {
            folders = folders + 1;
        } else {
            files = files + 1;
        }
        total_size = total_size.saturating_add(it.size);
        packed_size = packed_size.saturating_add(it.packed_size);
        i = i + 1;
    }
    assert(items@.take(n as int) =~= items@);
    ItemTotals { folders, files, total_size, packed_size }
}

/// What the library reports of an archive as a whole.
#[derive(Debug, Clone, Copy)]
pub struct ArchiveStats {
    pub is_solid: bool,
    pub is_multi_volume: bool,
    pub volumes_count: u32,
    pub headers_size: u64,
    pub has_comment: bool,
    /// 0 where the library does not know it.
    pub dictionary_size: u64,
}

/// The properties of an archive with `count` items, from the item totals,
/// the archive-wide data and the encryption flags of its handle: the names
/// count as encrypted when the headers are, and a zero dictionary size means
/// it is unknown.
pub fn archive_properties(
    count: u32,
    totals: ItemTotals,
    stats: ArchiveStats,
    is_header_encrypted: bool,
    has_encrypted_items: bool,
) -> (r: ArchiveProperties)
    ensures
        r.items_count == count,
        r.folders_count == totals.folders,
        r.files_count == totals.files,
        r.total_size == totals.total_size,
        r.packed_size == totals.packed_size,
        r.is_encrypted == is_header_encrypted,
        r.has_encrypted_items == has_encrypted_items,
        r.is_solid == stats.is_solid,
        r.is_multi_volume == stats.is_multi_volume,
        r.volumes_count == stats.volumes_count,
        r.headers_size == stats.headers_size,
        r.has_comment == stats.has_comment,
        r.dictionary_size == (if stats.dictionary_size > 0 {
            Some(stats.dictionary_size)
        } else {
            None::<u64>
        }),
        r.encrypted_names == is_header_encrypted,
        r.comment_size is None,
        !r.has_recovery_record,
        !r.locked,
{
    ArchiveProperties {
        items_count: count,
        folders_count: totals.folders,
        files_count: totals.files,
        total_size: totals.total_size,
        packed_size: totals.packed_size,
        is_encrypted: is_header_encrypted,
        has_encrypted_items,
        is_multi_volume: stats.is_multi_volume,
        is_solid: stats.is_solid,
        encrypted_names: is_header_encrypted,
        has_comment: stats.has_comment,
        comment_size: None,
        has_recovery_record: false,
        locked: false,
        dictionary_size: if stats.dictionary_size > 0 {
            Some(stats.dictionary_size)
        } else {
            None
        },
        headers_size: stats.headers_size,
        volumes_count: stats.volumes_count,
    }
}

/// The properties of an archive from its item list: it counts the items,
/// the folders and the files among them, and sums their sizes (capped at
/// the top of `u64`); the rest comes from the archive's statistics and
/// encryption flags (see `archive_properties`).
pub fn item_list_properties(
    items: &[ItemStat],
    stats: ArchiveStats,
    is_header_encrypted: bool,
    has_encrypted_items: bool,
) -> (r: ArchiveProperties)
    requires
        items@.len() <= u32::MAX,
    ensures
        r.items_count == items@.len(),
        r.folders_count == dir_count(items@),
        r.files_count == items@.len() - dir_count(items@),
        r.total_size == capped(size_sum(items@)),
        r.packed_size == capped(packed_sum(items@)),
        r.is_encrypted == is_header_encrypted,
        r.encrypted_names == is_header_encrypted,
        r.has_encrypted_items == has_encrypted_items,
        r.is_solid == stats.is_solid,
        r.is_multi_volume == stats.is_multi_volume,
        r.volumes_count == stats.volumes_count,
        r.headers_size == stats.headers_size,
        r.has_comment == stats.has_comment,
        r.dictionary_size == (if stats.dictionary_size > 0 {
            Some(stats.dictionary_size)
        } else {
            None::<u64>
        }),
{
    let totals = tally_items(items);
    archive_properties(items.len() as u32, totals, stats, is_header_encrypted, has_encrypted_items)
}

} // verus!
