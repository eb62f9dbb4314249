//! The state of the archive browser: the open archive, the directory being
//! shown, the navigation history, the listing as filtered and sorted, and the
//! selection. The window performs the loading and the drawing; this state
//! decides what is shown and what a click or a key does.
use crate::adapters::events::{checksum_name, ArchiveVmEvent, ChecksumAlgorithm};
use crate::adapters::repository::{lowercase, lowercase_of};
use crate::domain::archive::{ArchiveEntry, ArchiveHandle};
use crate::domain::repository::{error_message, ArchiveError, ArchiveProperties};
use crate::text::{chars_less, chars_of, contains_text, decimal, decimal_text, lex_less, text_contains};
use vstd::prelude::*;
use vstd::string::*;

verus! {

broadcast use vstd::seq_lib::group_seq_properties;

/// A single item at the current navigation level.
#[derive(Debug)]
pub struct LevelEntry {
    pub display_name: String,
    pub is_directory: bool,
    /// Original archive index (for preview / extraction).
    pub original_index: u32,
    pub size: u64,
    pub compressed_size: u64,
    /// Seconds since the Unix epoch (UTC).
    pub modified: Option<i64>,
    /// The compression ratio in ten-thousandths, by which the list sorts on
    /// its ratio column.
    pub ratio_key: u64,
}

impl Clone for LevelEntry {
    fn clone(&self) -> (r: Self)
        ensures
            r == *self,
    {
        LevelEntry {
            display_name: self.display_name.clone(),
            is_directory: self.is_directory,
            original_index: self.original_index,
            size: self.size,
            compressed_size: self.compressed_size,
            modified: self.modified,
            ratio_key: self.ratio_key,
        }
    }
}

/// A listed entry with its compression ratio in ten-thousandths.
#[derive(Debug)]
pub struct CachedEntry {
    pub entry: ArchiveEntry,
    pub ratio_key: u64,
}

impl Clone for CachedEntry {
    fn clone(&self) -> (r: Self)
        ensures
            r == *self,
    {
        CachedEntry { entry: self.entry.clone(), ratio_key: self.ratio_key }
    }
}

/// What the browser is showing.
#[derive(Debug, Clone, PartialEq)]
pub enum ViewStatus {
    Empty,
    Loading,
    Ready,
    Error(String),
}

/// The listing of one directory, kept for when the browser returns to it.
pub struct CachedLevel {
    pub path: String,
    pub entries: Vec<CachedEntry>,
}

/// What a click on an item of the listing did.
#[derive(Debug, Clone, Copy, PartialEq, Eq, Structural)]
pub enum LevelClick {
    /// There is no item at that position.
    Nothing,
    /// The item is a directory, which became the current one.
    EnteredDirectory,
    /// The item is a file, and the selection changed.
    SelectionChanged,
}

// ---------------------------------------------------------------------------
// Navigation
// ---------------------------------------------------------------------------

/// Where the browser stands: the current directory path (with a trailing
/// '/', empty at the root) and the paths it came from.
pub struct NavModel {
    pub current: Seq<char>,
    pub history: Seq<Seq<char>>,
}

/// The position after entering subdirectory `dir`.
pub open spec fn nav_into(n: NavModel, dir: Seq<char>) -> NavModel {
    NavModel { current: n.current + dir + "/"@, history: n.history.push(n.current) }
}

/// The position after going one level back (unchanged at the start).
pub open spec fn nav_up(n: NavModel) -> NavModel {
    if n.history.len() > 0 {
        NavModel { current: n.history.last(), history: n.history.drop_last() }
    } else {
        n
    }
}

/// The position at the root.
pub open spec fn nav_root() -> NavModel {
    NavModel { current: Seq::empty(), history: Seq::empty() }
}

/// The position after a listing failed: one level back, or the root.
pub open spec fn nav_back_after_failure(n: NavModel) -> NavModel {
    if n.history.len() > 0 {
        NavModel { current: n.history.last(), history: n.history.drop_last() }
    } else {
        NavModel { current: Seq::empty(), history: n.history }
    }
}

// ---------------------------------------------------------------------------
// Selection
// ---------------------------------------------------------------------------

/// The indices from `lo` to `hi`, both included.
pub open spec fn index_span(lo: u32, hi: u32) -> Set<u32> {
    Set::new(|x: u32| lo <= x <= hi)
}

/// The selection after a click on `index`: with shift, the span between the
/// anchor (or `index` where there is none) and `index`; with control,
/// `index` toggled; otherwise `index` alone.
pub open spec fn clicked_selection(sel: Set<u32>, anchor: Option<u32>, index: u32, shift: bool, control: bool) -> Set<u32> {
    if shift {
        let a = match anchor {
            Some(x) => x,
            None => index,
        };
        if a <= index {
            index_span(a, index)
        } else {
            index_span(index, a)
        }
    } else if control {
        toggled_one(sel, index)
    } else {
        set![index]
    }
}

/// The anchor after a click: a shift-click keeps it, any other click moves
/// it to the clicked index.
pub open spec fn clicked_anchor(anchor: Option<u32>, index: u32, shift: bool) -> Option<u32> {
    if shift {
        anchor
    } else {
        Some(index)
    }
}

/// `sel` with `x` added where it is missing, removed where it is present.
pub open spec fn toggled_one(sel: Set<u32>, x: u32) -> Set<u32> {
    if sel.contains(x) {
        sel.remove(x)
    } else {
        sel.insert(x)
    }
}

/// `sel` with each index of `idxs` toggled in turn: an index is selected
/// afterwards when it was before and occurs an even number of times in
/// `idxs`, or was not and occurs an odd number of times.
pub open spec fn toggled_all(sel: Set<u32>, idxs: Seq<u32>) -> Set<u32> {
    Set::new(|x: u32| sel.contains(x) != (idxs.to_multiset().count(x) % 2 == 1))
}

// ---------------------------------------------------------------------------
// Listing order
// ---------------------------------------------------------------------------

/// `a` sorts strictly before `b` on column `column` in ascending order:
/// column 1 by size, 2 by packed size, 3 by ratio, any other by the
/// lowercase name.
pub open spec fn key_less(a: LevelEntry, b: LevelEntry, column: u32) -> bool {
    if column == 1 {
        a.size < b.size
    } else if column == 2 {
        a.compressed_size < b.compressed_size
    } else if column == 3 {
        a.ratio_key < b.ratio_key
    } else {
        lex_less(lowercase_of(a.display_name@), lowercase_of(b.display_name@))
    }
}

/// `a` sorts strictly before `b`: in ascending order directories come
/// first, in descending order last; within each group the column's key
/// decides, reversed in descending order.
pub open spec fn level_less(a: LevelEntry, b: LevelEntry, column: u32, ascending: bool) -> bool {
    if a.is_directory != b.is_directory {
        if ascending {
            a.is_directory
        } else {
            b.is_directory
        }
    } else if ascending {
        key_less(a, b, column)
    } else {
        key_less(b, a, column)
    }
}

/// No item sorts strictly before an item ahead of it.
pub open spec fn sorted_levels(s: Seq<LevelEntry>, column: u32, ascending: bool) -> bool {
    forall|i: int, j: int| 0 <= i < j < s.len() ==> !level_less(#[trigger] s[j], #[trigger] s[i], column, ascending)
}

/// `a` sorts strictly before `b` in a loaded directory: directories first,
/// then by lowercase name.
pub open spec fn entry_less(a: ArchiveEntry, b: ArchiveEntry) -> bool {
    if a.is_directory != b.is_directory {
        a.is_directory
    } else {
        lex_less(lowercase_of(a.name@), lowercase_of(b.name@))
    }
}

/// The listing row of a loaded entry.
pub open spec fn level_of(c: CachedEntry) -> LevelEntry {
    LevelEntry {
        display_name: c.entry.name,
        is_directory: c.entry.is_directory,
        original_index: c.entry.original_index,
        size: c.entry.size,
        compressed_size: c.entry.compressed_size,
        modified: c.entry.modified,
        ratio_key: c.ratio_key,
    }
}

/// An entry passes the filter when the filter is empty or occurs in the
/// lowercase form of the entry's path.
pub open spec fn passes_filter(c: CachedEntry, filter: Seq<char>) -> bool {
    filter.len() == 0 || contains_text(lowercase_of(c.entry.path@), lowercase_of(filter))
}

/// The rows of the entries that pass the filter, in their order.
pub open spec fn filtered_rows(entries: Seq<CachedEntry>, filter: Seq<char>) -> Seq<LevelEntry>
    decreases entries.len(),
{
    if entries.len() == 0 {
        Seq::empty()
    } else {
        let rest = filtered_rows(entries.drop_last(), filter);
        if passes_filter(entries.last(), filter) {
            rest.push(level_of(entries.last()))
        } else {
            rest
        }
    }
}

/// Whether `a` sorts strictly before `b` on a column.
fn level_key_less(a: &LevelEntry, b: &LevelEntry, column: u32) -> (r: bool)
    ensures
        r == key_less(*a, *b, column),
{
    if column == 1 {
        a.size < b.size
    } else if column == 2 {
        a.compressed_size < b.compressed_size
    } else if column == 3 {
        a.ratio_key < b.ratio_key
    } else {
        let la = chars_of(lowercase(a.display_name.as_str()).as_str());
        let lb = chars_of(lowercase(b.display_name.as_str()).as_str());
        chars_less(la.as_slice(), lb.as_slice())
    }
}

/// Whether `a` sorts strictly before `b` in the listing.
pub fn level_before(a: &LevelEntry, b: &LevelEntry, column: u32, ascending: bool) -> (r: bool)
    ensures
        r == level_less(*a, *b, column, ascending),
{
    if a.is_directory != b.is_directory {
        if ascending {
            a.is_directory
        } else {
            b.is_directory
        }
    } else if ascending {
        level_key_less(a, b, column)
    } else {
        level_key_less(b, a, column)
    }
}

/// Whether `a` sorts strictly before `b` in a loaded directory.
pub fn entry_before(a: &CachedEntry, b: &CachedEntry) -> (r: bool)
    ensures
        r == entry_less(a.entry, b.entry),
{
    if a.entry.is_directory != b.entry.is_directory {
        a.entry.is_directory
    } else {
        let la = chars_of(lowercase(a.entry.name.as_str()).as_str());
        let lb = chars_of(lowercase(b.entry.name.as_str()).as_str());
        chars_less(la.as_slice(), lb.as_slice())
    }
}

/// The three-way comparison of two listing rows, from `level_before`.
fn level_order(a: &LevelEntry, b: &LevelEntry, column: u32, ascending: bool) -> (r: std::cmp::Ordering)
    ensures
        (r matches std::cmp::Ordering::Less) == level_less(*a, *b, column, ascending),
        (r matches std::cmp::Ordering::Greater) == (!level_less(*a, *b, column, ascending) && level_less(
            *b,
            *a,
            column,
            ascending,
        )),
{
    if level_before(a, b, column, ascending) {
        std::cmp::Ordering::Less
    } else if level_before(b, a, column, ascending) {
        std::cmp::Ordering::Greater
    } else {
        std::cmp::Ordering::Equal
    }
}

/// The three-way comparison of two loaded entries, from `entry_before`.
fn entry_order(a: &CachedEntry, b: &CachedEntry) -> (r: std::cmp::Ordering)
    ensures
        (r matches std::cmp::Ordering::Less) == entry_less(a.entry, b.entry),
        (r matches std::cmp::Ordering::Greater) == (!entry_less(a.entry, b.entry) && entry_less(b.entry, a.entry)),
{
    if entry_before(a, b) {
        std::cmp::Ordering::Less
    } else if entry_before(b, a) {
        std::cmp::Ordering::Greater
    } else {
        std::cmp::Ordering::Equal
    }
}

/// Calls `slice::sort_by` with the listing order (`level_order`), a stable
/// sort: the rows stay the same and none sorts before a row ahead of it.
#[verifier::external_body]
fn sort_levels(v: &mut Vec<LevelEntry>, column: u32, ascending: bool)
    ensures
        final(v)@.to_multiset() == old(v)@.to_multiset(),
        sorted_levels(final(v)@, column, ascending),
{
    v.sort_by(|a, b| level_order(a, b, column, ascending));
}

/// Calls `slice::sort_by` with the directory order (`entry_order`), a stable
/// sort: the entries stay the same and none sorts before one ahead of it.
#[verifier::external_body]
fn sort_entries(v: &mut Vec<CachedEntry>)
    ensures
        final(v)@.to_multiset() == old(v)@.to_multiset(),
        forall|i: int, j: int|
            0 <= i < j < final(v)@.len() ==> !entry_less(#[trigger] final(v)@[j].entry, #[trigger] final(v)@[i].entry),
{
    v.sort_by(|a, b| entry_order(a, b));
}

/// Calls `slice::sort` on strings, which orders them by their characters.
#[verifier::external_body]
fn sort_names(v: &mut Vec<String>)
    ensures
        texts_of(final(v)@).to_multiset() == texts_of(old(v)@).to_multiset(),
        forall|i: int, j: int|
            0 <= i < j < final(v)@.len() ==> !lex_less(#[trigger] final(v)@[j]@, #[trigger] final(v)@[i]@),
{
    v.sort();
}

/// The rows of `entries` that pass `filter`, in their order.
pub fn filter_rows(entries: &[CachedEntry], filter: &str) -> (r: Vec<LevelEntry>)
    ensures
        r@ == filtered_rows(entries@, filter@),
{
    let filter_lower = lowercase(filter);
    let empty_filter = filter.is_empty();
    let mut items: Vec<LevelEntry> = Vec::new();
    let n = entries.len();
    let mut i: usize = 0;
    while i < n
        invariant
            n == entries@.len(),
            i <= n,
            filter_lower@ == lowercase_of(filter@),
            empty_filter == (filter@.len() == 0),
            items@ == filtered_rows(entries@.take(i as int), filter@),
        decreases n - i,
    {
        let c = &entries[i];
        proof {
            assert(entries@.take(i + 1).drop_last() =~= entries@.take(i as int));
        }
        let keep = if empty_filter {
            true
        } else {
            let lower_path = lowercase(c.entry.path.as_str());
            text_contains(lower_path.as_str(), filter_lower.as_str())
        };
        if keep {
            items.push(
                LevelEntry {
                    display_name: c.entry.name.clone(),
                    is_directory: c.entry.is_directory,
                    original_index: c.entry.original_index,
                    size: c.entry.size,
                    compressed_size: c.entry.compressed_size,
                    modified: c.entry.modified,
                    ratio_key: c.ratio_key,
                },
            );
        }
        i = i + 1;
    }
    assert(entries@.take(n as int) =~= entries@);
    items
}

/// The position of `x` in `v`, if it occurs there.
pub fn position_of(v: &Vec<u32>, x: u32) -> (r: Option<usize>)
    ensures
        r is None <==> !v@.contains(x),
        r matches Some(i) ==> i < v@.len() && v@[i as int] == x,
{
    let n = v.len();
    let mut i: usize = 0;
    while i < n
        invariant
            n == v@.len(),
            i <= n,
            forall|k: int| 0 <= k < i ==> v@[k] != x,
        decreases n - i,
    {
        if v[i] == x {
            return Some(i);
        }
        i = i + 1;
    }
    None
}

/// The sort column and direction after a click on the header of `column`.
pub open spec fn sort_after(column: u32, ascending: bool, clicked: u32) -> (u32, bool) {
    if column == clicked {
        (column, !ascending)
    } else {
        (clicked, true)
    }
}

/// The names of the directories among the entries, in their order.
pub open spec fn subdir_names(entries: Seq<CachedEntry>) -> Seq<Seq<char>>
    decreases entries.len(),
{
    if entries.len() == 0 {
        Seq::empty()
    } else {
        let rest = subdir_names(entries.drop_last());
        if entries.last().entry.is_directory {
            rest.push(entries.last().entry.name@)
        } else {
            rest
        }
    }
}

/// The entries whose indices are in `sel`, in their order.
pub open spec fn selected_entries_of(entries: Seq<CachedEntry>, sel: Set<u32>) -> Seq<ArchiveEntry>
    decreases entries.len(),
{
    if entries.len() == 0 {
        Seq::empty()
    } else {
        let rest = selected_entries_of(entries.drop_last(), sel);
        if sel.contains(entries.last().entry.original_index) {
            rest.push(entries.last().entry)
        } else {
            rest
        }
    }
}

/// The entries of all listings whose indices are in `sel`, listing by
/// listing.
pub open spec fn selected_in(levels: Seq<CachedLevel>, sel: Set<u32>) -> Seq<ArchiveEntry>
    decreases levels.len(),
{
    if levels.len() == 0 {
        Seq::empty()
    } else {
        selected_in(levels.drop_last(), sel) + selected_entries_of(levels.last().entries@, sel)
    }
}

proof fn lemma_selected_of_empty(entries: Seq<CachedEntry>)
    ensures
        selected_entries_of(entries, Set::empty()) == Seq::<ArchiveEntry>::empty(),
    decreases entries.len(),
{
    if entries.len() > 0 {
        lemma_selected_of_empty(entries.drop_last());
    }
}

proof fn lemma_selected_in_empty(levels: Seq<CachedLevel>)
    ensures
        selected_in(levels, Set::empty()) == Seq::<ArchiveEntry>::empty(),
    decreases levels.len(),
{
    if levels.len() > 0 {
        lemma_selected_in_empty(levels.drop_last());
        lemma_selected_of_empty(levels.last().entries@);
        assert(Seq::<ArchiveEntry>::empty() + Seq::<ArchiveEntry>::empty() =~= Seq::<ArchiveEntry>::empty());
    }
}

// ---------------------------------------------------------------------------
// The browser state
// ---------------------------------------------------------------------------

/// The state of the archive browser.
pub struct ArchiveViewModel {
    pub archive: Option<ArchiveHandle>,
    pub properties: Option<ArchiveProperties>,
    /// Listings already loaded, by directory path.
    pub directory_cache: Vec<CachedLevel>,
    /// The selected archive indices, each once.
    pub selection: Vec<u32>,
    pub filter_text: String,
    pub sort_column: u32,
    pub sort_ascending: bool,
    pub status: ViewStatus,
    pub level_entries: Vec<LevelEntry>,
    pub current_path: String,
    pub path_history: Vec<String>,
    /// The item from which a shift-click selects a span.
    pub selection_anchor: Option<u32>,
}

/// The texts of a list of strings.
pub open spec fn texts_of(v: Seq<String>) -> Seq<Seq<char>> {
    v.map_values(|s: String| s@)
}

impl ArchiveViewModel {
    /// The selected archive indices.
    pub open spec fn selected(&self) -> Set<u32> {
        self.selection@.to_set()
    }

    /// The item from which a shift-click selects a span.
    pub open spec fn anchor(&self) -> Option<u32> {
        self.selection_anchor
    }

    /// Where the browser stands.
    pub open spec fn nav(&self) -> NavModel {
        NavModel { current: self.current_path@, history: texts_of(self.path_history@) }
    }

    /// The loaded listing of directory `path`, if any.
    pub open spec fn cached(&self, path: Seq<char>) -> Option<Seq<CachedEntry>> {
        if exists|i: int| 0 <= i < self.directory_cache@.len() && #[trigger] self.directory_cache@[i].path@ == path {
            let i = choose|i: int| 0 <= i < self.directory_cache@.len() && #[trigger] self.directory_cache@[i].path@ == path;
            Some(self.directory_cache@[i].entries@)
        } else {
            None
        }
    }

    /// The selection holds each index once, and each directory is loaded at
    /// most once.
    pub open spec fn wf(&self) -> bool {
        &&& self.selection@.no_duplicates()
        &&& forall|i: int, j: int|
            0 <= i < j < self.directory_cache@.len() ==> #[trigger] self.directory_cache@[i].path@
                != #[trigger] self.directory_cache@[j].path@
    }

    /// A browser with no archive open.
    pub fn new() -> (r: Self)
        ensures
            r.wf(),
            r.archive is None,
            r.properties is None,
            r.selected() == Set::<u32>::empty(),
            r.anchor() is None,
            r.filter_text@.len() == 0,
            r.sort_column == 0,
            r.sort_ascending,
            r.status == ViewStatus::Empty,
            r.level_entries@.len() == 0,
            r.nav() == nav_root(),
            forall|p: Seq<char>| r.cached(p) is None,
    {
        let r = ArchiveViewModel {
            archive: None,
            properties: None,
            directory_cache: Vec::new(),
            selection: Vec::new(),
            filter_text: String::new(),
            sort_column: 0,
            sort_ascending: true,
            status: ViewStatus::Empty,
            level_entries: Vec::new(),
            current_path: String::new(),
            path_history: Vec::new(),
            selection_anchor: None,
        };
        assert(r.selection@.to_set() =~= Set::<u32>::empty());
        assert(r.nav().history =~= Seq::<Seq<char>>::empty());
        r
    }

    // --- selection ---------------------------------------------------------

    /// Whether index `x` is selected.
    pub fn is_selected(&self, x: u32) -> (r: bool)
        ensures
            r == self.selected().contains(x),
    {
        position_of(&self.selection, x).is_some()
    }

    /// Toggles index `x` in the selection.
    fn toggle(&mut self, x: u32)
        requires
            old(self).wf(),
        ensures
            final(self).wf(),
            final(self).selected() == toggled_one(old(self).selected(), x),
            final(self).selection_anchor == old(self).selection_anchor,
            final(self).directory_cache == old(self).directory_cache,
            final(self).current_path == old(self).current_path,
            final(self).path_history == old(self).path_history,
            final(self).level_entries == old(self).level_entries,
            final(self).status == old(self).status,
            final(self).filter_text == old(self).filter_text,
            final(self).sort_column == old(self).sort_column,
            final(self).sort_ascending == old(self).sort_ascending,
            final(self).archive == old(self).archive,
            final(self).properties == old(self).properties,
    {
        let ghost before = self.selection@;
        match position_of(&self.selection, x) {
            Some(i) => {
                self.selection.remove(i);
                proof {
                    assert(self.selection@ =~= before.remove(i as int));
                    assert forall|y: u32| self.selection@.contains(y) <==> before.to_set().remove(x).contains(y) by {
                        if before.contains(y) && y != x {
                            let k = choose|k: int| 0 <= k < before.len() && before[k] == y;
                            if k < i {
                                assert(self.selection@[k] == y);
                            } else {
                                assert(k != i);
                                assert(self.selection@[k - 1] == y);
                            }
                        }
                        if self.selection@.contains(y) {
                            let k = choose|k: int| 0 <= k < self.selection@.len() && self.selection@[k] == y;
                            if k < i {
                                assert(before[k] == y);
                                assert(k != i as int);
                            } else {
                                assert(before[k + 1] == y);
                                assert(k + 1 != i as int);
                            }
                        }
                    }
                    assert(self.selection@.to_set() =~= before.to_set().remove(x));
                    assert forall|a: int, b: int| 0 <= a < b < self.selection@.len() implies self.selection@[a]
                        != self.selection@[b] by {
                        let a2 = if a < i { a } else { a + 1 };
                        let b2 = if b < i { b } else { b + 1 };
                        assert(self.selection@[a] == before[a2]);
                        assert(self.selection@[b] == before[b2]);
                    }
                }
            },
            None => {
                self.selection.push(x);
                proof {
                    assert(self.selection@.to_set() =~= before.to_set().insert(x));
                    assert forall|a: int, b: int| 0 <= a < b < self.selection@.len() implies self.selection@[a]
                        != self.selection@[b] by {
                        if b == before.len() {
                            assert(before.contains(self.selection@[a]));
                        }
                    }
                }
            },
        }
    }

    /// Makes `x` the only selected index.
    fn select_only(&mut self, x: u32)
        ensures
            final(self).selection@ == seq![x],
            final(self).selection_anchor == old(self).selection_anchor,
            final(self).directory_cache == old(self).directory_cache,
            final(self).current_path == old(self).current_path,
            final(self).path_history == old(self).path_history,
            final(self).level_entries == old(self).level_entries,
            final(self).status == old(self).status,
            final(self).filter_text == old(self).filter_text,
            final(self).sort_column == old(self).sort_column,
            final(self).sort_ascending == old(self).sort_ascending,
            final(self).archive == old(self).archive,
            final(self).properties == old(self).properties,
    {
        self.selection = Vec::new();
        self.selection.push(x);
    }

    /// Selects the indices from `lo` to `hi`, both included.
    fn select_span(&mut self, lo: u32, hi: u32)
        requires
            lo <= hi,
        ensures
            final(self).selection@.no_duplicates(),
            final(self).selection@.to_set() == index_span(lo, hi),
            final(self).selection_anchor == old(self).selection_anchor,
            final(self).directory_cache == old(self).directory_cache,
            final(self).current_path == old(self).current_path,
            final(self).path_history == old(self).path_history,
            final(self).level_entries == old(self).level_entries,
            final(self).status == old(self).status,
            final(self).filter_text == old(self).filter_text,
            final(self).sort_column == old(self).sort_column,
            final(self).sort_ascending == old(self).sort_ascending,
            final(self).archive == old(self).archive,
            final(self).properties == old(self).properties,
    {
        let mut sel: Vec<u32> = Vec::new();
        let mut i: u64 = lo as u64;
        while i <= hi as u64
            invariant
                lo <= i <= hi as u64 + 1,
                sel@.len() == i - lo,
                forall|k: int| 0 <= k < sel@.len() ==> #[trigger] sel@[k] == lo + k,
            decreases hi as u64 + 1 - i,
        {
            sel.push(i as u32);
            i = i + 1;
        }
        proof {
            assert(sel@.no_duplicates());
            assert forall|y: u32| sel@.contains(y) <==> index_span(lo, hi).contains(y) by {
                if lo <= y <= hi {
                    assert(sel@[y - lo] == y);
                }
            }
            assert(sel@.to_set() =~= index_span(lo, hi));
        }
        self.selection = sel;
    }

    /// The selection change of a click on index `index` with the given
    /// modifier keys (see `clicked_selection`).
    pub fn update_selection(&mut self, index: u32, shift: bool, control: bool)
        requires
            old(self).wf(),
        ensures
            final(self).wf(),
            final(self).selected() == clicked_selection(old(self).selected(), old(self).anchor(), index, shift, control),
            final(self).anchor() == clicked_anchor(old(self).anchor(), index, shift),
            final(self).nav() == old(self).nav(),
            final(self).level_entries == old(self).level_entries,
            final(self).status == old(self).status,
            forall|p: Seq<char>| final(self).cached(p) == old(self).cached(p),
    {
        if shift {
            let anchor = match self.selection_anchor {
                Some(a) => a,
                None => index,
            };
            let (lo, hi) = if anchor <= index {
                (anchor, index)
            } else {
                (index, anchor)
            };
            self.select_span(lo, hi);
        } else if control {
            self.toggle(index);
            self.selection_anchor = Some(index);
        } else {
            self.select_only(index);
            self.selection_anchor = Some(index);
            assert(self.selection@.to_set() =~= set![index]);
        }
    }

    /// Selects every item of the current listing.
    pub fn select_all(&mut self)
        requires
            old(self).wf(),
        ensures
            final(self).wf(),
            final(self).selected() == old(self).level_entries@.map_values(|e: LevelEntry| e.original_index).to_set(),
            final(self).anchor() is None,
            final(self).nav() == old(self).nav(),
            final(self).level_entries == old(self).level_entries,
            final(self).status == old(self).status,
    {
        let mut sel: Vec<u32> = Vec::new();
        let ghost idxs = self.level_entries@.map_values(|e: LevelEntry| e.original_index);
        let n = self.level_entries.len();
        let mut i: usize = 0;
        while i < n
            invariant
                n == self.level_entries@.len(),
                idxs == self.level_entries@.map_values(|e: LevelEntry| e.original_index),
                i <= n,
                sel@.no_duplicates(),
                sel@.to_set() == idxs.take(i as int).to_set(),
            decreases n - i,
        {
            let x = self.level_entries[i].original_index;
            proof {
                assert(idxs.take(i + 1) =~= idxs.take(i as int).push(x));
            }
            let ghost before = sel@;
            if position_of(&sel, x).is_none() {
                sel.push(x);
                proof {
                    assert forall|a: int, b: int| 0 <= a < b < sel@.len() implies sel@[a] != sel@[b] by {
                        if b == before.len() {
                            assert(before.contains(sel@[a]));
                        }
                    }
                }
            } else {
                assert(before.contains(x));
            }
            proof {
                let t = idxs.take(i + 1);
                assert forall|y: u32| sel@.contains(y) <==> t.contains(y) by {
                    if t.contains(y) {
                        let k = choose|k: int| 0 <= k < t.len() && t[k] == y;
                        if k < i {
                            assert(idxs.take(i as int)[k] == y);
                            assert(idxs.take(i as int).to_set().contains(y));
                        }
                    }
                    if sel@.contains(y) && y != x {
                        let k = choose|k: int| 0 <= k < sel@.len() && sel@[k] == y;
                        if k < before.len() {
                            assert(before[k] == y);
                            assert(before.to_set().contains(y));
                            let k2 = choose|k2: int| 0 <= k2 < i && idxs.take(i as int)[k2] == y;
                            assert(t[k2] == y);
                        }
                    }
                    if y == x {
                        assert(t[i as int] == x);
                    }
                }
                assert(sel@.to_set() =~= t.to_set());
            }
            i = i + 1;
        }
        assert(idxs.take(n as int) =~= idxs);
        self.selection = sel;
        self.selection_anchor = None;
    }

    /// Selects nothing.
    pub fn clear_selection(&mut self)
        requires
            old(self).wf(),
        ensures
            final(self).wf(),
            final(self).selected() == Set::<u32>::empty(),
            final(self).anchor() is None,
            final(self).nav() == old(self).nav(),
            final(self).level_entries == old(self).level_entries,
            final(self).status == old(self).status,
    {
        self.selection = Vec::new();
        self.selection_anchor = None;
        assert(self.selection@.to_set() =~= Set::<u32>::empty());
    }

    /// Toggles every item of the current listing.
    pub fn invert_selection(&mut self)
        requires
            old(self).wf(),
        ensures
            final(self).wf(),
            final(self).selected() == toggled_all(
                old(self).selected(),
                old(self).level_entries@.map_values(|e: LevelEntry| e.original_index),
            ),
            final(self).anchor() is None,
            final(self).nav() == old(self).nav(),
            final(self).level_entries == old(self).level_entries,
            final(self).status == old(self).status,
    {
        let ghost start = self.selected();
        let ghost idxs = self.level_entries@.map_values(|e: LevelEntry| e.original_index);
        let n = self.level_entries.len();
        let mut i: usize = 0;
        proof {
            assert(idxs.take(0) =~= Seq::<u32>::empty());
            assert(toggled_all(start, Seq::<u32>::empty()) =~= start);
        }
        while i < n
            invariant
                n == self.level_entries@.len(),
                idxs == self.level_entries@.map_values(|e: LevelEntry| e.original_index),
                i <= n,
                self.wf(),
                self.selected() == toggled_all(start, idxs.take(i as int)),
                self.level_entries == old(self).level_entries,
                self.current_path == old(self).current_path,
                self.path_history == old(self).path_history,
                self.status == old(self).status,
            decreases n - i,
        {
            let x = self.level_entries[i].original_index;
            self.toggle(x);
            proof {
                let t = idxs.take(i + 1);
                assert(t =~= idxs.take(i as int).push(x));
                idxs.take(i as int).to_multiset_ensures();
                assert(self.selected() =~= toggled_all(start, t));
            }
            i = i + 1;
        }
        assert(idxs.take(n as int) =~= idxs);
        self.selection_anchor = None;
    }

    /// The selected indices, each once.
    pub fn selected_indices(&self) -> (r: Vec<u32>)
        requires
            self.wf(),
        ensures
            r@.no_duplicates(),
            r@.to_set() == self.selected(),
    {
        self.selection.clone()
    }

    /// A selected index, if any is selected.
    pub fn first_selected_index(&self) -> (r: Option<u32>)
        ensures
            r is None <==> self.selected() == Set::<u32>::empty(),
            r matches Some(x) ==> self.selected().contains(x),
    {
        if self.selection.len() > 0 {
            assert(self.selection@.to_set().contains(self.selection@[0]));
            Some(self.selection[0])
        } else {
            assert(self.selection@.to_set() =~= Set::<u32>::empty());
            None
        }
    }

    // --- navigation --------------------------------------------------------

    /// Enters subdirectory `dir_name` of the current directory; the
    /// selection is cleared.
    pub fn navigate_into(&mut self, dir_name: &str)
        requires
            old(self).wf(),
        ensures
            final(self).wf(),
            final(self).nav() == nav_into(old(self).nav(), dir_name@),
            final(self).selected() == Set::<u32>::empty(),
            final(self).anchor() is None,
            forall|p: Seq<char>| final(self).cached(p) == old(self).cached(p),
    {
        let previous = self.current_path.clone();
        self.path_history.push(previous);
        let mut next = self.current_path.clone();
        next.append(dir_name);
        next.append("/");
        self.current_path = next;
        self.selection = Vec::new();
        self.selection_anchor = None;
        proof {
            assert(self.selection@.to_set() =~= Set::<u32>::empty());
            assert(texts_of(self.path_history@) =~= texts_of(old(self).path_history@).push(old(self).current_path@));
            assert(self.directory_cache == old(self).directory_cache);
        }
    }

    /// Goes back to the directory the browser came from; says whether it
    /// moved (it does not at the start of its history).
    pub fn navigate_up(&mut self) -> (r: bool)
        requires
            old(self).wf(),
        ensures
            final(self).wf(),
            r == (old(self).nav().history.len() > 0),
            final(self).nav() == nav_up(old(self).nav()),
            r ==> final(self).selected() == Set::<u32>::empty() && final(self).anchor() is None,
            !r ==> final(self).selected() == old(self).selected() && final(self).anchor() == old(self).anchor(),
            forall|p: Seq<char>| final(self).cached(p) == old(self).cached(p),
    {
        match self.path_history.pop() {
            Some(prev) => {
                self.current_path = prev;
                self.selection = Vec::new();
                self.selection_anchor = None;
                proof {
                    assert(self.selection@.to_set() =~= Set::<u32>::empty());
                    assert(texts_of(self.path_history@) =~= texts_of(old(self).path_history@).drop_last());
                    assert(self.directory_cache == old(self).directory_cache);
                }
                true
            },
            None => {
                assert(self.directory_cache == old(self).directory_cache);
                false
            },
        }
    }

    /// Goes to the root of the archive and forgets the history.
    pub fn navigate_root(&mut self)
        requires
            old(self).wf(),
        ensures
            final(self).wf(),
            final(self).nav() == nav_root(),
            final(self).selected() == Set::<u32>::empty(),
            final(self).anchor() is None,
            forall|p: Seq<char>| final(self).cached(p) == old(self).cached(p),
    {
        self.path_history = Vec::new();
        self.current_path = String::new();
        self.selection = Vec::new();
        self.selection_anchor = None;
        assert(self.selection@.to_set() =~= Set::<u32>::empty());
        assert(texts_of(self.path_history@) =~= Seq::<Seq<char>>::empty());
        assert(self.directory_cache == old(self).directory_cache);
    }

    /// After a listing failed: back one level, or to the root.
    fn navigate_up_internal(&mut self)
        requires
            old(self).wf(),
        ensures
            final(self).wf(),
            final(self).nav() == nav_back_after_failure(old(self).nav()),
            final(self).selected() == old(self).selected(),
            forall|p: Seq<char>| final(self).cached(p) == old(self).cached(p),
    {
        match self.path_history.pop() {
            Some(prev) => {
                self.current_path = prev;
                assert(texts_of(self.path_history@) =~= texts_of(old(self).path_history@).drop_last());
            },
            None => {
                self.current_path = String::new();
            },
        }
        assert(self.directory_cache == old(self).directory_cache);
    }

    // --- listing -----------------------------------------------------------

    /// The entries of the current directory, where they are loaded.
    pub open spec fn current_entries(&self) -> Seq<CachedEntry> {
        match self.cached(self.current_path@) {
            Some(e) => e,
            None => Seq::empty(),
        }
    }

    /// The listing that the cache holds at position `j` is the one of its
    /// path.
    proof fn lemma_cached_at(vm: Self, p: Seq<char>, j: int)
        requires
            vm.wf(),
            0 <= j < vm.directory_cache@.len(),
            vm.directory_cache@[j].path@ == p,
        ensures
            vm.cached(p) == Some(vm.directory_cache@[j].entries@),
    {
        let k = choose|k: int| 0 <= k < vm.directory_cache@.len() && #[trigger] vm.directory_cache@[k].path@ == p;
        if k != j {
            if k < j {
                assert(vm.directory_cache@[k].path@ != vm.directory_cache@[j].path@);
            } else {
                assert(vm.directory_cache@[j].path@ != vm.directory_cache@[k].path@);
            }
        }
    }

    /// The position in the cache of the listing of `path`.
    fn find_level(&self, path: &str) -> (r: Option<usize>)
        requires
            self.wf(),
        ensures
            r is None ==> self.cached(path@) is None,
            r matches Some(i) ==> i < self.directory_cache@.len() && self.directory_cache@[i as int].path@ == path@
                && self.cached(path@) == Some(self.directory_cache@[i as int].entries@),
    {
        let key = String::from_str(path);
        let n = self.directory_cache.len();
        let mut i: usize = 0;
        while i < n
            invariant
                n == self.directory_cache@.len(),
                i <= n,
                key@ == path@,
                self.wf(),
                forall|k: int| 0 <= k < i ==> self.directory_cache@[k].path@ != path@,
            decreases n - i,
        {
            if self.directory_cache[i].path == key {
                proof {
                    let j = choose|j: int|
                        0 <= j < self.directory_cache@.len() && #[trigger] self.directory_cache@[j].path@ == path@;
                    if j != i {
                        if j < i {
                            assert(self.directory_cache@[j].path@ != self.directory_cache@[i as int].path@);
                        } else {
                            assert(self.directory_cache@[i as int].path@ != self.directory_cache@[j].path@);
                        }
                    }
                }
                return Some(i);
            }
            i = i + 1;
        }
        None
    }

    /// Rebuilds the listing from the loaded entries of the current
    /// directory: those that pass the filter, sorted.
    fn reapply_filter_and_sort(&mut self)
        requires
            old(self).wf(),
        ensures
            final(self).wf(),
            final(self).level_entries@.to_multiset() == filtered_rows(
                old(self).current_entries(),
                old(self).filter_text@,
            ).to_multiset(),
            sorted_levels(final(self).level_entries@, old(self).sort_column, old(self).sort_ascending),
            final(self).selection == old(self).selection,
            final(self).selection_anchor == old(self).selection_anchor,
            final(self).directory_cache == old(self).directory_cache,
            final(self).current_path == old(self).current_path,
            final(self).path_history == old(self).path_history,
            final(self).status == old(self).status,
            final(self).filter_text == old(self).filter_text,
            final(self).sort_column == old(self).sort_column,
            final(self).sort_ascending == old(self).sort_ascending,
            final(self).archive == old(self).archive,
            final(self).properties == old(self).properties,
    {
        let mut rows = match self.find_level(self.current_path.as_str()) {
            Some(i) => filter_rows(self.directory_cache[i].entries.as_slice(), self.filter_text.as_str()),
            None => {
                let empty: Vec<CachedEntry> = Vec::new();
                assert(filtered_rows(empty@, self.filter_text@) =~= Seq::<LevelEntry>::empty());
                filter_rows(empty.as_slice(), self.filter_text.as_str())
            },
        };
        sort_levels(&mut rows, self.sort_column, self.sort_ascending);
        self.level_entries = rows;
    }

    /// Shows the current directory where its listing is loaded (the browser
    /// is then ready) and says so; otherwise the browser is loading it.
    pub fn show_current_level(&mut self) -> (r: bool)
        requires
            old(self).wf(),
        ensures
            final(self).wf(),
            r == (old(self).cached(old(self).current_path@) is Some),
            r ==> final(self).status == ViewStatus::Ready,
            !r ==> final(self).status == ViewStatus::Loading,
            r ==> final(self).level_entries@.to_multiset() == filtered_rows(
                old(self).current_entries(),
                old(self).filter_text@,
            ).to_multiset() && sorted_levels(final(self).level_entries@, old(self).sort_column, old(self).sort_ascending),
            final(self).selected() == old(self).selected(),
            final(self).nav() == old(self).nav(),
            forall|p: Seq<char>| final(self).cached(p) == old(self).cached(p),
    {
        if self.find_level(self.current_path.as_str()).is_some() {
            self.status = ViewStatus::Ready;
            self.reapply_filter_and_sort();
            true
        } else {
            self.status = ViewStatus::Loading;
            false
        }
    }

    /// Keeps the loaded listing of directory `key` (directories first, then
    /// by lowercase name) and, where the current directory's listing is
    /// loaded, shows it and says so.
    pub fn directory_loaded(&mut self, key: String, entries: Vec<CachedEntry>) -> (r: bool)
        requires
            old(self).wf(),
        ensures
            final(self).wf(),
            final(self).cached(key@) matches Some(e) && e.to_multiset() == entries@.to_multiset() && (forall|i: int, j: int|
                0 <= i < j < e.len() ==> !entry_less(#[trigger] e[j].entry, #[trigger] e[i].entry)),
            forall|p: Seq<char>| p != key@ ==> final(self).cached(p) == old(self).cached(p),
            r == (final(self).cached(old(self).current_path@) is Some),
            r ==> final(self).status == ViewStatus::Ready,
            !r ==> final(self).status == old(self).status,
            r ==> final(self).level_entries@.to_multiset() == filtered_rows(
                final(self).current_entries(),
                old(self).filter_text@,
            ).to_multiset() && sorted_levels(final(self).level_entries@, old(self).sort_column, old(self).sort_ascending),
            final(self).selected() == old(self).selected(),
            final(self).nav() == old(self).nav(),
    {
        let mut sorted = entries;
        sort_entries(&mut sorted);
        let ghost old_vm = *self;
        let ghost key_view = key@;
        match self.find_level(key.as_str()) {
            Some(i) => {
                self.directory_cache.set(i, CachedLevel { path: key, entries: sorted });
                proof {
                    assert forall|a: int, b: int|
                        0 <= a < b < self.directory_cache@.len() implies #[trigger] self.directory_cache@[a].path@
                        != #[trigger] self.directory_cache@[b].path@ by {
                        assert(old_vm.directory_cache@[a].path@ != old_vm.directory_cache@[b].path@);
                    }
                    Self::lemma_cached_at(*self, key_view, i as int);
                    assert forall|p: Seq<char>| p != key_view implies self.cached(p) == old_vm.cached(p) by {
                        if exists|j: int| 0 <= j < old_vm.directory_cache@.len() && #[trigger] old_vm.directory_cache@[j].path@ == p {
                            let j = choose|j: int| 0 <= j < old_vm.directory_cache@.len() && #[trigger] old_vm.directory_cache@[j].path@ == p;
                            Self::lemma_cached_at(old_vm, p, j);
                            Self::lemma_cached_at(*self, p, j);
                        } else {
                            assert forall|j: int| 0 <= j < self.directory_cache@.len() implies #[trigger] self.directory_cache@[j].path@ != p by {
                                if j != i {
                                    assert(self.directory_cache@[j] == old_vm.directory_cache@[j]);
                                }
                            }
                        }
                    }
                }
            },
            None => {
                self.directory_cache.push(CachedLevel { path: key, entries: sorted });
                proof {
                    let n = old_vm.directory_cache@.len();
                    assert forall|a: int, b: int|
                        0 <= a < b < self.directory_cache@.len() implies #[trigger] self.directory_cache@[a].path@
                        != #[trigger] self.directory_cache@[b].path@ by {
                        if b == n {
                            assert(old_vm.directory_cache@[a].path@ != key_view);
                        } else {
                            assert(old_vm.directory_cache@[a].path@ != old_vm.directory_cache@[b].path@);
                        }
                    }
                    Self::lemma_cached_at(*self, key_view, n as int);
                    assert forall|p: Seq<char>| p != key_view implies self.cached(p) == old_vm.cached(p) by {
                        if exists|j: int| 0 <= j < old_vm.directory_cache@.len() && #[trigger] old_vm.directory_cache@[j].path@ == p {
                            let j = choose|j: int| 0 <= j < old_vm.directory_cache@.len() && #[trigger] old_vm.directory_cache@[j].path@ == p;
                            Self::lemma_cached_at(old_vm, p, j);
                            Self::lemma_cached_at(*self, p, j);
                        } else {
                            assert forall|j: int| 0 <= j < self.directory_cache@.len() implies #[trigger] self.directory_cache@[j].path@ != p by {
                                if j < n {
                                    assert(self.directory_cache@[j] == old_vm.directory_cache@[j]);
                                }
                            }
                        }
                    }
                }
            },
        }
        if self.find_level(self.current_path.as_str()).is_some() {
            self.status = ViewStatus::Ready;
            self.reapply_filter_and_sort();
            true
        } else {
            false
        }
    }

    /// A listing failed: back one level (or to the root), showing the
    /// error.
    pub fn directory_load_failed(&mut self, message: String)
        requires
            old(self).wf(),
        ensures
            final(self).wf(),
            final(self).nav() == nav_back_after_failure(old(self).nav()),
            final(self).status == ViewStatus::Error(message),
            final(self).selected() == old(self).selected(),
            forall|p: Seq<char>| final(self).cached(p) == old(self).cached(p),
    {
        self.navigate_up_internal();
        let ghost mid = *self;
        self.status = ViewStatus::Error(message);
        assert(self.directory_cache == mid.directory_cache);
    }

    /// Opening an archive has begun.
    pub fn open_started(&mut self)
        ensures
            final(self).status == ViewStatus::Loading,
            final(self).archive == old(self).archive,
            final(self).selection == old(self).selection,
            final(self).directory_cache == old(self).directory_cache,
            final(self).current_path == old(self).current_path,
            final(self).path_history == old(self).path_history,
    {
        self.status = ViewStatus::Loading;
    }

    /// Opening an archive failed with `message`.
    pub fn open_failed(&mut self, message: String)
        ensures
            final(self).status == ViewStatus::Error(message),
            final(self).archive == old(self).archive,
            final(self).selection == old(self).selection,
            final(self).directory_cache == old(self).directory_cache,
            final(self).current_path == old(self).current_path,
            final(self).path_history == old(self).path_history,
    {
        self.status = ViewStatus::Error(message);
    }

    /// Opening the archive at `path` failed with `error`. An archive that
    /// needs a password leaves the browser empty and gives back the path to
    /// ask a password for; any other error is shown.
    pub fn open_refused(&mut self, path: String, error: &ArchiveError) -> (r: Option<String>)
        ensures
            error is EncryptedArchiveRequiresPassword ==> r == Some(path) && final(self).status == ViewStatus::Empty,
            !(error is EncryptedArchiveRequiresPassword) ==> r is None && (final(self).status matches ViewStatus::Error(
                m,
            ) && m@ == error_message(*error)),
            final(self).archive == old(self).archive,
            final(self).selection == old(self).selection,
            final(self).directory_cache == old(self).directory_cache,
            final(self).current_path == old(self).current_path,
            final(self).path_history == old(self).path_history,
    {
        match error {
            ArchiveError::EncryptedArchiveRequiresPassword => {
                self.status = ViewStatus::Empty;
                Some(path)
            },
            _ => {
                self.status = ViewStatus::Error(error.message());
                None
            },
        }
    }

    /// An archive was opened: the browser stands at its root with nothing
    /// loaded.
    pub fn archive_opened(&mut self, handle: ArchiveHandle, properties: ArchiveProperties)
        requires
            old(self).wf(),
        ensures
            final(self).wf(),
            final(self).archive == Some(handle),
            final(self).properties == Some(properties),
            final(self).nav() == nav_root(),
            forall|p: Seq<char>| final(self).cached(p) is None,
            final(self).selected() == old(self).selected(),
    {
        self.archive = Some(handle);
        self.properties = Some(properties);
        self.current_path = String::new();
        self.path_history = Vec::new();
        self.directory_cache = Vec::new();
        assert(texts_of(self.path_history@) =~= Seq::<Seq<char>>::empty());
    }

    /// A click on row `level_idx` of the listing: a directory is entered,
    /// a file changes the selection (see `update_selection`).
    pub fn handle_level_click(&mut self, level_idx: usize, shift: bool, control: bool) -> (r: LevelClick)
        requires
            old(self).wf(),
        ensures
            final(self).wf(),
            level_idx >= old(self).level_entries@.len() ==> r == LevelClick::Nothing && *final(self) == *old(self),
            level_idx < old(self).level_entries@.len() && old(self).level_entries@[level_idx as int].is_directory ==> {
                &&& r == LevelClick::EnteredDirectory
                &&& final(self).nav() == nav_into(
                    old(self).nav(),
                    old(self).level_entries@[level_idx as int].display_name@,
                )
                &&& final(self).selected() == Set::<u32>::empty()
            },
            level_idx < old(self).level_entries@.len() && !old(self).level_entries@[level_idx as int].is_directory ==> {
                let x = old(self).level_entries@[level_idx as int].original_index;
                &&& r == LevelClick::SelectionChanged
                &&& final(self).selected() == clicked_selection(old(self).selected(), old(self).anchor(), x, shift, control)
                &&& final(self).anchor() == clicked_anchor(old(self).anchor(), x, shift)
                &&& final(self).nav() == old(self).nav()
            },
    {
        if level_idx >= self.level_entries.len() {
            return LevelClick::Nothing;
        }
        if self.level_entries[level_idx].is_directory {
            let name = self.level_entries[level_idx].display_name.clone();
            self.navigate_into(name.as_str());
            LevelClick::EnteredDirectory
        } else {
            let x = self.level_entries[level_idx].original_index;
            self.update_selection(x, shift, control);
            LevelClick::SelectionChanged
        }
    }

    /// A click on the header of column `column`: the same column again
    /// reverses the order, another column sorts ascending by it.
    pub fn sort_by(&mut self, column: u32)
        requires
            old(self).wf(),
        ensures
            final(self).wf(),
            (final(self).sort_column, final(self).sort_ascending) == sort_after(
                old(self).sort_column,
                old(self).sort_ascending,
                column,
            ),
            final(self).level_entries@.to_multiset() == filtered_rows(
                old(self).current_entries(),
                old(self).filter_text@,
            ).to_multiset(),
            sorted_levels(final(self).level_entries@, final(self).sort_column, final(self).sort_ascending),
            final(self).selected() == old(self).selected(),
            final(self).nav() == old(self).nav(),
    {
        if self.sort_column == column {
            self.sort_ascending = !self.sort_ascending;
        } else {
            self.sort_column = column;
            self.sort_ascending = true;
        }
        self.reapply_filter_and_sort();
    }

    /// Sorts by `column` in the given direction.
    pub fn apply_sort(&mut self, column: u32, ascending: bool)
        requires
            old(self).wf(),
        ensures
            final(self).wf(),
            final(self).sort_column == column,
            final(self).sort_ascending == ascending,
            final(self).level_entries@.to_multiset() == filtered_rows(
                old(self).current_entries(),
                old(self).filter_text@,
            ).to_multiset(),
            sorted_levels(final(self).level_entries@, column, ascending),
            final(self).selected() == old(self).selected(),
            final(self).nav() == old(self).nav(),
    {
        self.sort_column = column;
        self.sort_ascending = ascending;
        self.reapply_filter_and_sort();
    }

    /// Filters the listing by `text`; the selection is cleared.
    pub fn set_filter(&mut self, text: &str)
        requires
            old(self).wf(),
        ensures
            final(self).wf(),
            final(self).filter_text@ == text@,
            final(self).level_entries@.to_multiset() == filtered_rows(old(self).current_entries(), text@).to_multiset(),
            sorted_levels(final(self).level_entries@, old(self).sort_column, old(self).sort_ascending),
            final(self).selected() == Set::<u32>::empty(),
            final(self).anchor() is None,
            final(self).nav() == old(self).nav(),
    {
        self.filter_text = String::from_str(text);
        self.selection = Vec::new();
        self.selection_anchor = None;
        assert(self.selection@.to_set() =~= Set::<u32>::empty());
        self.reapply_filter_and_sort();
    }

    /// The names of the subdirectories of the current directory, sorted.
    pub fn current_subdirs(&self) -> (r: Vec<String>)
        requires
            self.wf(),
        ensures
            texts_of(r@).to_multiset() == subdir_names(self.current_entries()).to_multiset(),
            forall|i: int, j: int| 0 <= i < j < r@.len() ==> !lex_less(#[trigger] r@[j]@, #[trigger] r@[i]@),
    {
        let mut dirs: Vec<String> = Vec::new();
        match self.find_level(self.current_path.as_str()) {
            Some(k) => {
                let entries = &self.directory_cache[k].entries;
                let n = entries.len();
                let mut i: usize = 0;
                while i < n
                    invariant
                        n == entries@.len(),
                        i <= n,
                        texts_of(dirs@) == subdir_names(entries@.take(i as int)),
                    decreases n - i,
                {
                    proof {
                        assert(entries@.take(i + 1).drop_last() =~= entries@.take(i as int));
                    }
                    if entries[i].entry.is_directory {
                        dirs.push(entries[i].entry.name.clone());
                        assert(texts_of(dirs@) =~= subdir_names(entries@.take(i + 1)));
                    }
                    i = i + 1;
                }
                assert(entries@.take(n as int) =~= entries@);
            },
            None => {
                assert(texts_of(dirs@) =~= subdir_names(Seq::<CachedEntry>::empty()));
            },
        }
        sort_names(&mut dirs);
        dirs
    }

    /// The rows shown.
    pub fn displayed_entries(&self) -> (r: &[LevelEntry])
        ensures
            r@ == self.level_entries@,
    {
        self.level_entries.as_slice()
    }

    /// The loaded entries whose indices are selected, listing by listing.
    pub fn selected_entries(&self) -> (r: Vec<ArchiveEntry>)
        ensures
            r@ == selected_in(self.directory_cache@, self.selected()),
    {
        let mut out: Vec<ArchiveEntry> = Vec::new();
        if self.selection.len() == 0 {
            proof {
                assert(self.selection@.to_set() =~= Set::<u32>::empty());
                lemma_selected_in_empty(self.directory_cache@);
            }
            return out;
        }
        let ghost sel = self.selected();
        let m = self.directory_cache.len();
        let mut k: usize = 0;
        while k < m
            invariant
                m == self.directory_cache@.len(),
                k <= m,
                sel == self.selected(),
                out@ == selected_in(self.directory_cache@.take(k as int), sel),
            decreases m - k,
        {
            let entries = &self.directory_cache[k].entries;
            let ghost base = out@;
            let n = entries.len();
            let mut i: usize = 0;
            while i < n
                invariant
                    n == entries@.len(),
                    i <= n,
                    sel == self.selected(),
                    out@ == base + selected_entries_of(entries@.take(i as int), sel),
                decreases n - i,
            {
                proof {
                    assert(entries@.take(i + 1).drop_last() =~= entries@.take(i as int));
                }
                if self.is_selected(entries[i].entry.original_index) {
                    out.push(entries[i].entry.clone());
                    assert(out@ =~= base + selected_entries_of(entries@.take(i + 1), sel));
                } else {
                    assert(out@ =~= base + selected_entries_of(entries@.take(i + 1), sel));
                }
                i = i + 1;
            }
            proof {
                assert(entries@.take(n as int) =~= entries@);
                assert(self.directory_cache@.take(k + 1).drop_last() =~= self.directory_cache@.take(k as int));
            }
            k = k + 1;
        }
        assert(self.directory_cache@.take(m as int) =~= self.directory_cache@);
        out
    }

    /// Closes the archive: everything is forgotten and the handle, if any,
    /// is given back for the repository to close.
    pub fn close(&mut self) -> (r: Option<ArchiveHandle>)
        ensures
            final(self).wf(),
            r == old(self).archive,
            final(self).archive is None,
            final(self).selected() == Set::<u32>::empty(),
            final(self).anchor() is None,
            final(self).filter_text@.len() == 0,
            final(self).level_entries@.len() == 0,
            final(self).nav() == nav_root(),
            forall|p: Seq<char>| final(self).cached(p) is None,
            final(self).status == ViewStatus::Empty,
    {
        let handle = self.archive.take();
        self.directory_cache = Vec::new();
        self.selection = Vec::new();
        self.selection_anchor = None;
        self.filter_text = String::new();
        self.level_entries = Vec::new();
        self.current_path = String::new();
        self.path_history = Vec::new();
        self.status = ViewStatus::Empty;
        assert(self.selection@.to_set() =~= Set::<u32>::empty());
        assert(texts_of(self.path_history@) =~= Seq::<Seq<char>>::empty());
        handle
    }

    /// Forgets the listing of the current directory so that it is loaded
    /// again; says whether an archive is open (only then is anything
    /// forgotten).
    pub fn refresh(&mut self) -> (r: bool)
        requires
            old(self).wf(),
        ensures
            final(self).wf(),
            r == (old(self).archive is Some),
            r ==> final(self).cached(old(self).current_path@) is None,
            forall|p: Seq<char>| p != old(self).current_path@ ==> final(self).cached(p) == old(self).cached(p),
            !r ==> forall|p: Seq<char>| final(self).cached(p) == old(self).cached(p),
            final(self).nav() == old(self).nav(),
            final(self).selected() == old(self).selected(),
    {
        if self.archive.is_none() {
            return false;
        }
        let ghost old_vm = *self;
        let ghost cur = self.current_path@;
        match self.find_level(self.current_path.as_str()) {
            Some(i) => {
                self.directory_cache.remove(i);
                proof {
                    let c = old_vm.directory_cache@;
                    assert(self.directory_cache@ =~= c.remove(i as int));
                    assert forall|a: int, b: int|
                        0 <= a < b < self.directory_cache@.len() implies #[trigger] self.directory_cache@[a].path@
                        != #[trigger] self.directory_cache@[b].path@ by {
                        let a2 = if a < i { a } else { a + 1 };
                        let b2 = if b < i { b } else { b + 1 };
                        assert(self.directory_cache@[a] == c[a2]);
                        assert(self.directory_cache@[b] == c[b2]);
                        assert(c[a2].path@ != c[b2].path@);
                    }
                    assert forall|j: int| 0 <= j < self.directory_cache@.len() implies #[trigger] self.directory_cache@[j].path@ != cur by {
                        let j2 = if j < i { j } else { j + 1 };
                        assert(self.directory_cache@[j] == c[j2]);
                        if j2 < i {
                            assert(c[j2].path@ != c[i as int].path@);
                        } else {
                            assert(c[i as int].path@ != c[j2].path@);
                        }
                    }
                    assert forall|p: Seq<char>| p != cur implies self.cached(p) == old_vm.cached(p) by {
                        if exists|j: int| 0 <= j < c.len() && #[trigger] c[j].path@ == p {
                            let j = choose|j: int| 0 <= j < c.len() && #[trigger] c[j].path@ == p;
                            Self::lemma_cached_at(old_vm, p, j);
                            assert(j != i);
                            let j3 = if j < i { j } else { j - 1 };
                            assert(self.directory_cache@[j3] == c[j]);
                            Self::lemma_cached_at(*self, p, j3);
                        } else {
                            assert forall|j: int| 0 <= j < self.directory_cache@.len() implies #[trigger] self.directory_cache@[j].path@ != p by {
                                let j2 = if j < i { j } else { j + 1 };
                                assert(self.directory_cache@[j] == c[j2]);
                            }
                        }
                    }
                }
            },
            None => {},
        }
        true
    }

    /// Extraction can be asked for: the listing is ready and something is
    /// selected.
    pub fn request_extract(&self) -> (r: bool)
        ensures
            r == (self.status == ViewStatus::Ready && self.selection@.len() > 0),
    {
        let ready = match self.status {
            ViewStatus::Ready => true,
            _ => false,
        };
        ready && self.selection.len() > 0
    }

    /// A test can be asked for: the listing is ready.
    pub fn request_test(&self) -> (r: bool)
        ensures
            r == (self.status == ViewStatus::Ready),
    {
        match self.status {
            ViewStatus::Ready => true,
            _ => false,
        }
    }

    // --- background jobs ---------------------------------------------------

    /// Deleting the selection: where the listing is ready and something is
    /// selected, the selected indices with the message "Deleting N
    /// entries...".
    pub fn plan_delete(&self) -> (r: Option<JobPlan>)
        ensures
            r is Some <==> (self.status == ViewStatus::Ready && self.selection@.len() > 0),
            r matches Some(p) ==> {
                &&& p.event is RequestDelete
                &&& p.indices matches Some(v) && v@ == self.selection@
                &&& p.total == self.selection@.len()
                &&& p.message@ == count_text("Deleting "@, self.selection@.len(), " entries..."@)
            },
    {
        if !self.request_extract() {
            return None;
        }
        let n = self.selection.len();
        Some(
            JobPlan {
                event: ArchiveVmEvent::RequestDelete,
                indices: Some(self.selection.clone()),
                message: count_message("Deleting ", n, " entries..."),
                total: n as u64,
            },
        )
    }

    /// Adding `file_count` chosen files: where the listing is ready and
    /// files were chosen, with the message "Adding N files...".
    pub fn plan_add(&self, file_count: usize) -> (r: Option<JobPlan>)
        ensures
            r is Some <==> (self.status == ViewStatus::Ready && file_count > 0),
            r matches Some(p) ==> {
                &&& p.event is RequestAddFiles
                &&& p.indices is None
                &&& p.total == file_count
                &&& p.message@ == count_text("Adding "@, file_count as nat, " files..."@)
            },
    {
        if !self.request_test() || file_count == 0 {
            return None;
        }
        Some(
            JobPlan {
                event: ArchiveVmEvent::RequestAddFiles,
                indices: None,
                message: count_message("Adding ", file_count, " files..."),
                total: file_count as u64,
            },
        )
    }

    /// Testing entries: where the listing is ready, the selected indices
    /// (every entry where nothing is selected) with the message "Testing
    /// archive...".
    pub fn plan_test(&self) -> (r: Option<JobPlan>)
        ensures
            r is Some <==> self.status == ViewStatus::Ready,
            r matches Some(p) ==> {
                &&& p.event matches ArchiveVmEvent::RequestTestEntries { selected_only } && selected_only
                &&& (self.selection@.len() == 0 ==> p.indices is None)
                &&& (self.selection@.len() > 0 ==> (p.indices matches Some(v) && v@ == self.selection@))
                &&& p.total == self.selection@.len()
                &&& p.message@ == "Testing archive..."@
            },
    {
        if !self.request_test() {
            return None;
        }
        let n = self.selection.len();
        let indices = if n == 0 {
            None
        } else {
            Some(self.selection.clone())
        };
        Some(
            JobPlan {
                event: ArchiveVmEvent::RequestTestEntries { selected_only: true },
                indices,
                message: String::from_str("Testing archive..."),
                total: n as u64,
            },
        )
    }

    /// Computing a checksum of the selection: where the listing is ready
    /// and something is selected, with the message "Calculating NAME...".
    pub fn plan_checksum(&self, algorithm: ChecksumAlgorithm) -> (r: Option<JobPlan>)
        ensures
            r is Some <==> (self.status == ViewStatus::Ready && self.selection@.len() > 0),
            r matches Some(p) ==> {
                &&& p.event matches ArchiveVmEvent::RequestChecksum { algorithm: a } && a == algorithm
                &&& p.indices matches Some(v) && v@ == self.selection@
                &&& p.total == self.selection@.len()
                &&& p.message@ == "Calculating "@ + checksum_name(algorithm) + "..."@
            },
    {
        if !self.request_extract() {
            return None;
        }
        let n = self.selection.len();
        let mut message = String::from_str("Calculating ");
        message.append(algorithm.label());
        message.append("...");
        Some(
            JobPlan {
                event: ArchiveVmEvent::RequestChecksum { algorithm },
                indices: Some(self.selection.clone()),
                message,
                total: n as u64,
            },
        )
    }

    /// The entry that opening, viewing or editing acts on: a selected index,
    /// where an archive is open and something is selected.
    pub fn entry_target(&self) -> (r: Option<u32>)
        ensures
            r is Some <==> (self.archive is Some && self.selected() != Set::<u32>::empty()),
            r matches Some(x) ==> self.selected().contains(x),
    {
        match self.archive {
            Some(_) => self.first_selected_index(),
            None => None,
        }
    }
}

/// A background job that the browser starts: the event it sends, the
/// indices it works on, and the progress it shows.
pub struct JobPlan {
    pub event: ArchiveVmEvent,
    pub indices: Option<Vec<u32>>,
    pub message: String,
    pub total: u64,
}

/// A count between two texts.
pub open spec fn count_text(prefix: Seq<char>, n: nat, suffix: Seq<char>) -> Seq<char> {
    prefix + decimal_text(n) + suffix
}

/// `prefix`, `n` in decimal, then `suffix`.
fn count_message(prefix: &str, n: usize, suffix: &str) -> (r: String)
    ensures
        r@ == count_text(prefix@, n as nat, suffix@),
{
    let mut r = String::from_str(prefix);
    let d = decimal(n as u64);
    r.append(d.as_str());
    r.append(suffix);
    r
}

} // verus!
