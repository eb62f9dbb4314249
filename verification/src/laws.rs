//! Properties that hold across the library's operations.
use crate::adapters::archive_vm::{
    clicked_anchor, clicked_selection, filtered_rows, level_less, level_of, nav_into, nav_root, nav_up, sort_after, sorted_levels,
    toggled_all, toggled_one, CachedEntry, LevelEntry, NavModel,
};
use crate::adapters::repository::format_of_extension;
use crate::application::preview::{all_plain, is_plain_char, looks_like_image, preview_of, PreviewData};
use crate::domain::archive::{extension_of_name, last_index_of};
use crate::domain::archive::{TestFailure, TestResult};
use crate::application::test::{failures_of, passes_of};
use crate::text::{contains_text, decimal_digit, decimal_text, hex_digit, hex_text, lex_less};
use crate::sizes::{double_spacing, double_value, fixed_text, human_size_text, round_half_even, KIB, MIB};
use crate::adapters::archive_vm::{entry_less, passes_filter};
use crate::application::new_folder::trim_end;
use crate::adapters::repository::lowercase_of;
use crate::domain::archive::ArchiveEntry;
use vstd::utf8::{decode_utf8, encode_scalar, encode_utf8, valid_utf8};
use crate::adapters::repository::{
    capped, dir_count, entry_name_of, name_start, packed_sum, size_sum, writer_format_of, ItemStat, ItemTotals,
};
use crate::domain::repository::ArchiveProperties;
use crate::instance::{key_text, path_hash};
use crate::cli::Commands;
use crate::cli_flow::{cli_next, command_archive, preview_lines, ActionView, CliEvent, CliState};
use crate::domain::repository::{error_message, ArchiveError};
use crate::application::preview::truncated;
use crate::domain::archive::{
    format_display_name, format_extension, format_supports_encryption, id_after, methods_for, ArchiveFormat,
};
use crate::domain::preferences::{other_than, recent_after_open, MAX_RECENT_FILES};
use crate::adapters::menus::{action_allowed, MenuAction};
use vstd::prelude::*;

verus! {

broadcast use vstd::seq_lib::group_seq_properties;

/// A format that can encrypt file names can encrypt data.
pub proof fn law_encrypted_names_imply_encryption(f: ArchiveFormat)
    ensures
        f == ArchiveFormat::SevenZip ==> format_supports_encryption(f),
{
}

/// A format supports encryption exactly when it offers an encryption
/// method.
pub proof fn law_encryption_methods_match_support(f: ArchiveFormat)
    ensures
        format_supports_encryption(f) <==> methods_for(f).len() > 0,
{
}

/// The library can write an archive exactly when its format is writable
/// (everything but RAR).
pub proof fn law_writable_formats_have_writers(f: ArchiveFormat)
    ensures
        (writer_format_of(f) is Some) <==> f != ArchiveFormat::Rar,
{
}

/// The next id always differs from the current one, so two handles made one
/// after the other never share an id.
pub proof fn law_consecutive_ids_differ(id: u64)
    ensures
        id_after(id) != id,
        id < u64::MAX ==> id_after(id) > id,
{
}

/// The id handed out after `n` more ids, starting from `start`.
pub open spec fn id_after_n(start: u64, n: nat) -> u64
    decreases n,
{
    if n == 0 {
        start
    } else {
        id_after(id_after_n(start, (n - 1) as nat))
    }
}

proof fn lemma_id_after_n(start: u64, n: nat)
    requires
        n <= u64::MAX,
    ensures
        id_after_n(start, n) == (if start + n <= u64::MAX {
            start + n
        } else {
            start + n - u64::MAX - 1
        }),
    decreases n,
{
    if n > 0 {
        lemma_id_after_n(start, (n - 1) as nat);
    }
}

/// Ids never repeat within a full turn of `u64`: of any `2^64` ids handed
/// out one after the other, no two are equal.
pub proof fn law_ids_unique(start: u64, i: nat, j: nat)
    requires
        i < j <= u64::MAX,
    ensures
        id_after_n(start, i) != id_after_n(start, j),
{
    lemma_id_after_n(start, i);
    lemma_id_after_n(start, j);
}

/// A preview looks at no more than its limit: the first `max` bytes of the
/// entry, or all of them where there are fewer.
pub proof fn law_preview_within_limit(data: Seq<u8>, max: nat)
    ensures
        truncated(data, max).len() <= max,
        truncated(data, max).len() == (if data.len() <= max {
            data.len()
        } else {
            max
        }),
        truncated(data, max) == data.take(truncated(data, max).len() as int),
{
    assert(data.take(data.len() as int) =~= data);
}

/// After opening a path, it heads the recent files.
pub proof fn law_recent_opened_first(recent: Seq<Seq<char>>, path: Seq<char>)
    ensures
        recent_after_open(recent, path).len() >= 1,
        recent_after_open(recent, path)[0] == path,
        recent_after_open(recent, path).len() <= MAX_RECENT_FILES,
{
}

/// After opening a path, it occurs once among the recent files.
pub proof fn law_recent_opened_once(recent: Seq<Seq<char>>, path: Seq<char>)
    ensures
        forall|i: int| 0 < i < recent_after_open(recent, path).len() ==> recent_after_open(recent, path)[i] != path,
{
    let f = recent.filter(other_than(path));
    let moved = seq![path] + f;
    assert forall|i: int| 0 < i < moved.len() implies moved[i] != path by {
        assert(moved[i] == f[i - 1]);
        recent.lemma_filter_pred(other_than(path), i - 1);
    }
}

/// What a filter keeps comes from the filtered sequence.
proof fn lemma_filter_from(s: Seq<Seq<char>>, pred: spec_fn(Seq<char>) -> bool)
    ensures
        forall|i: int| 0 <= i < s.filter(pred).len() ==> s.contains(#[trigger] s.filter(pred)[i]),
    decreases s.len(),
{
    reveal(Seq::filter);
    if s.len() > 0 {
        let init = s.drop_last();
        lemma_filter_from(init, pred);
        let f = s.filter(pred);
        assert forall|i: int| 0 <= i < f.len() implies s.contains(#[trigger] f[i]) by {
            if i < init.filter(pred).len() {
                assert(f[i] == init.filter(pred)[i]);
                let k = choose|k: int| 0 <= k < init.len() && init[k] == init.filter(pred)[i];
                assert(s[k] == init[k]);
            } else {
                assert(f[i] == s.last());
                assert(s[s.len() - 1] == s.last());
            }
        }
    }
}

/// Opening a path brings in no other path: each recent file afterwards is
/// the opened one or was recent before; and while the list was below its
/// limit, every earlier recent file stays.
pub proof fn law_recent_keeps_the_earlier_files(recent: Seq<Seq<char>>, path: Seq<char>)
    ensures
        forall|i: int|
            0 <= i < recent_after_open(recent, path).len() ==> #[trigger] recent_after_open(recent, path)[i]
                == path || recent.contains(recent_after_open(recent, path)[i]),
        recent.len() < MAX_RECENT_FILES ==> forall|p: Seq<char>| #[trigger]
            recent.contains(p) ==> recent_after_open(recent, path).contains(p),
{
    let pred = other_than(path);
    let f = recent.filter(pred);
    let moved = seq![path] + f;
    let r = recent_after_open(recent, path);
    lemma_filter_from(recent, pred);
    recent.filter_lemma(pred);
    assert forall|i: int| 0 <= i < r.len() implies #[trigger] r[i] == path || recent.contains(r[i]) by {
        assert(r[i] == moved[i]);
        if i > 0 {
            assert(moved[i] == f[i - 1]);
        }
    }
    if recent.len() < MAX_RECENT_FILES {
        assert(r == moved);
        assert forall|p: Seq<char>| #[trigger] recent.contains(p) implies r.contains(p) by {
            if p == path {
                assert(r[0] == path);
            } else {
                let k = choose|k: int| 0 <= k < recent.len() && recent[k] == p;
                assert(pred(recent[k]));
                assert(f.contains(p));
                let j = choose|j: int| 0 <= j < f.len() && f[j] == p;
                assert(r[j + 1] == f[j]);
            }
        }
    }
}

/// Opening the same path twice in a row leaves the recent files as opening
/// it once.
pub proof fn law_recent_open_idempotent(recent: Seq<Seq<char>>, path: Seq<char>)
    ensures
        recent_after_open(recent_after_open(recent, path), path) == recent_after_open(recent, path),
{
    let pred = other_than(path);
    let once = recent_after_open(recent, path);
    law_recent_opened_once(recent, path);
    law_recent_opened_first(recent, path);
    let tail = once.drop_first();
    assert forall|i: int| 0 <= i < tail.len() implies pred(tail[i]) by {
        assert(tail[i] == once[i + 1]);
    }
    lemma_filter_all(tail, pred);
    assert(once =~= seq![path] + tail);
    assert(once.filter(pred) =~= tail) by {
        lemma_filter_prepend_rejected(tail, path, pred);
    }
    assert(seq![path] + once.filter(pred) =~= once);

}

/// Filtering a sequence whose elements all pass gives it back.
proof fn lemma_filter_all<A>(s: Seq<A>, pred: spec_fn(A) -> bool)
    requires
        forall|i: int| 0 <= i < s.len() ==> pred(s[i]),
    ensures
        s.filter(pred) == s,
    decreases s.len(),
{
    reveal_with_fuel(Seq::filter, 1);
    if s.len() > 0 {
        lemma_filter_all(s.drop_last(), pred);
        assert(s.drop_last().push(s.last()) =~= s);
    } else {
        assert(s.filter(pred) =~= s);
    }
}

/// Filtering drops a rejected first element.
proof fn lemma_filter_prepend_rejected<A>(s: Seq<A>, x: A, pred: spec_fn(A) -> bool)
    requires
        !pred(x),
    ensures
        (seq![x] + s).filter(pred) == s.filter(pred),
    decreases s.len(),
{
    reveal_with_fuel(Seq::filter, 1);
    if s.len() == 0 {
        assert((seq![x] + s).drop_last() =~= Seq::<A>::empty());
        assert(Seq::<A>::empty().filter(pred) =~= Seq::<A>::empty());
        assert(s.filter(pred) =~= Seq::<A>::empty());
    } else {
        lemma_filter_prepend_rejected(s.drop_last(), x, pred);
        assert((seq![x] + s).drop_last() =~= seq![x] + s.drop_last());
        assert((seq![x] + s).last() == s.last());
    }
}

/// Going back after entering a directory returns to where the browser was.
pub proof fn law_back_undoes_enter(n: NavModel, dir: Seq<char>)
    ensures
        nav_up(nav_into(n, dir)) == n,
{
    assert(nav_into(n, dir).history.drop_last() =~= n.history);
}

/// At the root there is nowhere to go back to.
pub proof fn law_back_at_root_stays()
    ensures
        nav_up(nav_root()) == nav_root(),
{
}

/// Toggling an index twice leaves the selection as it was.
pub proof fn law_toggle_twice_restores(sel: Set<u32>, x: u32)
    ensures
        toggled_one(toggled_one(sel, x), x) == sel,
{
    assert(toggled_one(toggled_one(sel, x), x) =~= sel);
}

/// Two control-clicks on the same index leave the selection as it was,
/// whatever the anchor.
pub proof fn law_control_click_twice_restores(sel: Set<u32>, anchor: Option<u32>, x: u32)
    ensures
        clicked_selection(clicked_selection(sel, anchor, x, false, true), Some(x), x, false, true) == sel,
{
    law_toggle_twice_restores(sel, x);
}

/// Inverting the selection twice over the same listing leaves it as it was.
pub proof fn law_invert_twice_restores(sel: Set<u32>, idxs: Seq<u32>)
    ensures
        toggled_all(toggled_all(sel, idxs), idxs) == sel,
{
    assert(toggled_all(toggled_all(sel, idxs), idxs) =~= sel);
}

/// A shift-click selects exactly the indices between the anchor and the
/// clicked index, both included (the clicked index alone where there is no
/// anchor), and keeps the anchor.
pub proof fn law_shift_click_selects_the_span(
    sel: Set<u32>,
    anchor: Option<u32>,
    x: u32,
    control: bool,
)
    ensures
        forall|y: u32|
            #[trigger] clicked_selection(sel, anchor, x, true, control).contains(y) == match anchor {
                Some(a) => (a <= y && y <= x) || (x <= y && y <= a),
                None => y == x,
            },
        clicked_anchor(anchor, x, true) == anchor,
{
}

/// A plain click selects exactly the clicked index.
pub proof fn law_plain_click_selects_one(sel: Set<u32>, anchor: Option<u32>, x: u32)
    ensures
        clicked_selection(sel, anchor, x, false, false) == set![x],
{
}

/// Clicking the same column header twice restores its sort direction.
pub proof fn law_sort_click_twice_restores(column: u32, ascending: bool)
    ensures
        ({
            let once = sort_after(column, ascending, column);
            sort_after(once.0, once.1, column) == (column, ascending)
        }),
{
}

/// An empty filter shows every entry, in order.
pub proof fn law_empty_filter_shows_all(entries: Seq<CachedEntry>)
    ensures
        filtered_rows(entries, Seq::empty()) == entries.map_values(|c: CachedEntry| level_of(c)),
    decreases entries.len(),
{
    if entries.len() > 0 {
        law_empty_filter_shows_all(entries.drop_last());
        assert(entries.map_values(|c: CachedEntry| level_of(c)) =~= entries.drop_last().map_values(
            |c: CachedEntry| level_of(c),
        ).push(level_of(entries.last())));
    } else {
        assert(entries.map_values(|c: CachedEntry| level_of(c)) =~= Seq::<LevelEntry>::empty());
    }
}

/// An entry's name holds no '/'.
pub proof fn law_entry_name_has_no_slash(path: Seq<char>)
    ensures
        !entry_name_of(path).contains('/'),
    decreases path.len(),
{
    lemma_no_slash_after_start(path);
    assert forall|i: int| 0 <= i < entry_name_of(path).len() implies entry_name_of(path)[i] != '/' by {
        assert(entry_name_of(path)[i] == path[name_start(path) + i]);
    }
}

/// The name of an entry ends its path, and stands at its start or just
/// after a '/': with the name holding no '/', it is the part after the last
/// one.
pub proof fn law_entry_name_ends_the_path(path: Seq<char>)
    ensures
        entry_name_of(path).len() <= path.len(),
        path.subrange(path.len() - entry_name_of(path).len(), path.len() as int) == entry_name_of(path),
        entry_name_of(path).len() == path.len() || path[path.len() - entry_name_of(path).len() - 1] == '/',
{
    lemma_no_slash_after_start(path);
    lemma_name_start_follows_slash(path);
}

proof fn lemma_name_start_follows_slash(path: Seq<char>)
    ensures
        name_start(path) == 0 || (0 < name_start(path) <= path.len() && path[name_start(path) - 1] == '/'),
    decreases path.len(),
{
    if path.len() > 0 && path.last() != '/' {
        lemma_name_start_follows_slash(path.drop_last());
        if name_start(path) > 0 {
            assert(path.drop_last()[name_start(path) - 1] == path[name_start(path) - 1]);
        }
    }
}

proof fn lemma_no_slash_after_start(path: Seq<char>)
    ensures
        0 <= name_start(path) <= path.len(),
        forall|k: int| name_start(path) <= k < path.len() ==> path[k] != '/',
    decreases path.len(),
{
    if path.len() > 0 && path.last() != '/' {
        lemma_no_slash_after_start(path.drop_last());
        assert forall|k: int| name_start(path) <= k < path.len() implies path[k] != '/' by {
            if k < path.len() - 1 {
                assert(path.drop_last()[k] == path[k]);
            }
        }
    }
}

/// A later handle has a larger id, as long as the ids have not wrapped
/// past the top of `u64`.
pub proof fn law_later_ids_are_larger(start: u64, i: nat, j: nat)
    requires
        i < j,
        start + j <= u64::MAX,
    ensures
        id_after_n(start, i) < id_after_n(start, j),
{
    lemma_id_after_n(start, i);
    lemma_id_after_n(start, j);
}

/// An ASCII letter in lower case; other characters stay.
pub open spec fn ascii_lower(c: char) -> char {
    if 'A' <= c && c <= 'Z' {
        ((c as u32) + 32) as char
    } else {
        c
    }
}

/// A format's display name, lowered, is its extension.
pub proof fn law_display_name_lowers_to_extension(f: ArchiveFormat)
    ensures
        format_display_name(f).map_values(|c: char| ascii_lower(c)) == format_extension(f),
{
    reveal_strlit("7z");
    reveal_strlit("zip");
    reveal_strlit("Zip");
    reveal_strlit("tar");
    reveal_strlit("Tar");
    reveal_strlit("tar.gz");
    reveal_strlit("Tar.gz");
    reveal_strlit("tar.xz");
    reveal_strlit("Tar.xz");
    reveal_strlit("tar.bz2");
    reveal_strlit("Tar.bz2");
    reveal_strlit("rar");
    reveal_strlit("Rar");
    assert(format_display_name(f).map_values(|c: char| ascii_lower(c)) =~= format_extension(f));
}

/// Equal archive paths give equal lock keys, so two instances agree on the
/// lock of an archive.
pub proof fn law_equal_paths_equal_keys(a: Seq<char>, b: Seq<char>)
    requires
        a == b,
    ensures
        key_text(path_hash(a)) == key_text(path_hash(b)),
{
}

/// The properties of an archive count its items: the folders, the files and
/// their sizes are those of the item list they were tallied from.
pub proof fn law_properties_count_the_items(items: Seq<ItemStat>, t: ItemTotals, p: ArchiveProperties)
    requires
        t.folders == dir_count(items),
        t.folders + t.files == items.len(),
        t.total_size == capped(size_sum(items)),
        t.packed_size == capped(packed_sum(items)),
        p.folders_count == t.folders,
        p.files_count == t.files,
        p.total_size == t.total_size,
        p.packed_size == t.packed_size,
    ensures
        p.folders_count == dir_count(items),
        p.files_count == items.len() - dir_count(items),
        p.total_size == capped(size_sum(items)),
        p.packed_size == capped(packed_sum(items)),
{
}

/// A command-line run on an archive begins by opening it, with the
/// command's path and password.
pub proof fn law_cli_opens_first(c: Commands)
    requires
        command_archive(c) is Some,
    ensures
        cli_next(Some(c), CliState::Start, CliEvent::Start) == (
            CliState::Opening,
            seq![
                ActionView::Open {
                    path: command_archive(c)->Some_0.0,
                    password: command_archive(c)->Some_0.1,
                },
            ],
        ),
{
}

/// An archive that cannot be opened is reported as "Error: ..." and the
/// run ends, with nothing to close.
pub proof fn law_cli_open_failure_ends_the_run(c: Option<Commands>, e: ArchiveError)
    ensures
        cli_next(c, CliState::Opening, CliEvent::OpenFailed(e)) == (
            CliState::Done,
            seq![ActionView::PrintError("Error: "@ + error_message(e))],
        ),
{
}

/// Closing ends a run: the archive is closed only by the last action of a
/// step that leaves an open archive and ends the run, and an ended run does
/// nothing more, so a run closes its archive at most once.
pub proof fn law_cli_closes_once(c: Option<Commands>, s: CliState, e: CliEvent)
    ensures
        s is Done ==> cli_next(c, s, e).0 is Done && cli_next(c, s, e).1.len() == 0,
        forall|k: int|
            0 <= k < cli_next(c, s, e).1.len() && (#[trigger] cli_next(c, s, e).1[k]) is Close ==> {
                &&& k == cli_next(c, s, e).1.len() - 1
                &&& cli_next(c, s, e).0 is Done
                &&& (s is Operating || s is Extracting)
            },
{
    match (s, e) {
        (CliState::Operating, CliEvent::Previewed(res)) => {
            let lines = preview_lines(res);
            assert forall|k: int| 0 <= k < lines.len() implies !(lines[k] is Close) by {}
        },
        _ => {},
    }
}

/// Within each kind (directories, files) the listing's columns order rows
/// by their own key: the size column by unpacked size, the packed column by
/// packed size, the ratio column by the ratio key; descending reverses the
/// order.
pub proof fn law_columns_order_by_their_keys(a: LevelEntry, b: LevelEntry, ascending: bool)
    requires
        a.is_directory == b.is_directory,
    ensures
        level_less(a, b, 1, ascending) == (if ascending {
            a.size < b.size
        } else {
            b.size < a.size
        }),
        level_less(a, b, 2, ascending) == (if ascending {
            a.compressed_size < b.compressed_size
        } else {
            b.compressed_size < a.compressed_size
        }),
        level_less(a, b, 3, ascending) == (if ascending {
            a.ratio_key < b.ratio_key
        } else {
            b.ratio_key < a.ratio_key
        }),
{
}

/// Clicking the column that the listing is sorted on reverses the
/// direction; clicking another column sorts on that one, ascending.
pub proof fn law_clicking_a_column_header(column: u32, ascending: bool, clicked: u32)
    ensures
        clicked == column ==> sort_after(column, ascending, clicked) == (column, !ascending),
        clicked != column ==> sort_after(column, ascending, clicked) == (clicked, true),
{
}

/// Within each kind, any column other than size, packed size and ratio
/// orders rows by their lowercase names, reversed when descending.
pub proof fn law_name_column_orders_by_lowercase_name(a: LevelEntry, b: LevelEntry, column: u32, ascending: bool)
    requires
        a.is_directory == b.is_directory,
        column != 1 && column != 2 && column != 3,
    ensures
        level_less(a, b, column, ascending) == (if ascending {
            lex_less(lowercase_of(a.display_name@), lowercase_of(b.display_name@))
        } else {
            lex_less(lowercase_of(b.display_name@), lowercase_of(a.display_name@))
        }),
{
}

/// Whatever the column, a directory sorts before a file when ascending and
/// after it when descending.
pub proof fn law_directories_lead_ascending(d: LevelEntry, f: LevelEntry, column: u32, ascending: bool)
    requires
        d.is_directory,
        !f.is_directory,
    ensures
        level_less(d, f, column, ascending) == ascending,
        level_less(f, d, column, ascending) == !ascending,
{
}

/// Names are compared in dictionary order: `a` comes before `b` exactly when
/// `a` is a proper prefix of `b`, or at the first position where they
/// differ `a` holds the smaller character.
pub proof fn law_name_order_is_dictionary_order(a: Seq<char>, b: Seq<char>)
    ensures
        lex_less(a, b) == ((a.len() < b.len() && b.take(a.len() as int) == a) || exists|i: int|
            0 <= i < a.len() && i < b.len() && a.take(i) == b.take(i) && #[trigger] a[i] < b[i]),
    decreases a.len(),
{
    if a.len() == 0 {
        assert(b.take(0) =~= a);
    } else if b.len() == 0 {
    } else if a[0] != b[0] {
        assert(a.take(0) =~= b.take(0));
        if a[0] > b[0] {
            assert forall|i: int| 0 <= i < a.len() && i < b.len() && a.take(i) == b.take(i) implies !(#[trigger] a[i]
                < b[i]) by {
                if i > 0 {
                    assert(a.take(i)[0] == b.take(i)[0]);
                }
            }
            if b.take(a.len() as int) == a && a.len() < b.len() {
                assert(b.take(a.len() as int)[0] == a[0]);
            }
        }
    } else {
        let a1 = a.drop_first();
        let b1 = b.drop_first();
        law_name_order_is_dictionary_order(a1, b1);
        if a1.len() < b1.len() && b1.take(a1.len() as int) == a1 {
            assert(b.take(a.len() as int) =~= seq![a[0]] + b1.take(a1.len() as int));
            assert(a =~= seq![a[0]] + a1);
        }
        if a.len() < b.len() && b.take(a.len() as int) == a {
            assert forall|k: int| 0 <= k < a1.len() implies b1.take(a1.len() as int)[k] == a1[k] by {
                assert(b.take(a.len() as int)[k + 1] == a[k + 1]);
            }
            assert(b1.take(a1.len() as int) =~= a1);
        }
        if exists|i: int| 0 <= i < a1.len() && i < b1.len() && a1.take(i) == b1.take(i) && #[trigger] a1[i] < b1[i] {
            let i = choose|i: int| 0 <= i < a1.len() && i < b1.len() && a1.take(i) == b1.take(i) && #[trigger] a1[i] < b1[i];
            assert(a.take(i + 1) =~= seq![a[0]] + a1.take(i));
            assert(b.take(i + 1) =~= seq![b[0]] + b1.take(i));
            assert(a[i + 1] == a1[i]);
        }
        if exists|i: int| 0 <= i < a.len() && i < b.len() && a.take(i) == b.take(i) && #[trigger] a[i] < b[i] {
            let i = choose|i: int| 0 <= i < a.len() && i < b.len() && a.take(i) == b.take(i) && #[trigger] a[i] < b[i];
            assert(i > 0);
            assert forall|k: int| 0 <= k < i - 1 implies #[trigger] a1.take(i - 1)[k] == b1.take(i - 1)[k] by {
                assert(a.take(i)[k + 1] == b.take(i)[k + 1]);
            }
            assert(a1.take(i - 1) =~= b1.take(i - 1));
            assert(a1[i - 1] == a[i]);
        }
    }
}

/// A listing sorted on a column keeps directories first when ascending and
/// last when descending, and within each kind its keys run in the column's
/// direction: non-decreasing when ascending, non-increasing when descending.
pub proof fn law_sorted_listing_follows_its_column(s: Seq<LevelEntry>, column: u32, ascending: bool)
    requires
        sorted_levels(s, column, ascending),
    ensures
        forall|i: int, j: int|
            0 <= i < j < s.len() && s[i].is_directory != s[j].is_directory ==> #[trigger] s[i].is_directory
                == ascending && #[trigger] s[j].is_directory != ascending,
        forall|i: int, j: int|
            0 <= i < j < s.len() && s[i].is_directory == s[j].is_directory ==> {
                &&& column == 1 ==> (if ascending {
                    s[i].size <= s[j].size
                } else {
                    s[j].size <= s[i].size
                })
                &&& column == 2 ==> (if ascending {
                    #[trigger] s[i].compressed_size <= #[trigger] s[j].compressed_size
                } else {
                    s[j].compressed_size <= s[i].compressed_size
                })
                &&& column == 3 ==> (if ascending {
                    s[i].ratio_key <= s[j].ratio_key
                } else {
                    s[j].ratio_key <= s[i].ratio_key
                })
            },
{
    assert forall|i: int, j: int|
        0 <= i < j < s.len() && s[i].is_directory != s[j].is_directory implies #[trigger] s[i].is_directory
            == ascending && #[trigger] s[j].is_directory != ascending by {
        assert(!level_less(s[j], s[i], column, ascending));
    }
    assert forall|i: int, j: int|
        0 <= i < j < s.len() && s[i].is_directory == s[j].is_directory implies {
            &&& column == 1 ==> (if ascending {
                s[i].size <= s[j].size
            } else {
                s[j].size <= s[i].size
            })
            &&& column == 2 ==> (if ascending {
                #[trigger] s[i].compressed_size <= #[trigger] s[j].compressed_size
            } else {
                s[j].compressed_size <= s[i].compressed_size
            })
            &&& column == 3 ==> (if ascending {
                s[i].ratio_key <= s[j].ratio_key
            } else {
                s[j].ratio_key <= s[i].ratio_key
            })
        } by {
        assert(!level_less(s[j], s[i], column, ascending));
    }
}

/// The last extension of an archive named after its format names the writer
/// of that format: "a.7z", "a.zip", "a.tar", "a.tar.gz", "a.tar.bz2" and
/// "a.tar.xz" are written as 7z, zip, tar, gzip, bzip2 and xz archives.
pub proof fn law_format_extensions_name_their_writers(f: ArchiveFormat)
    requires
        f != ArchiveFormat::Rar,
    ensures
        extension_of_name(seq!['a', '.'] + format_extension(f)) matches Some(e) && format_of_extension(e)
            == writer_format_of(f),
{
    reveal_strlit("7z");
    reveal_strlit("zip");
    reveal_strlit("tar");
    reveal_strlit("gz");
    reveal_strlit("tgz");
    reveal_strlit("bz2");
    reveal_strlit("tbz");
    reveal_strlit("tbz2");
    reveal_strlit("xz");
    reveal_strlit("txz");
    reveal_strlit("tar.gz");
    reveal_strlit("tar.bz2");
    reveal_strlit("tar.xz");
    let n = seq!['a', '.'] + format_extension(f);
    reveal_with_fuel(last_index_of, 10);
    match f {
        ArchiveFormat::SevenZip => {
            assert(n =~= seq!['a', '.', '7', 'z']);
            assert(n.subrange(2, 4) =~= "7z"@);
        },
        ArchiveFormat::Zip => {
            assert(n =~= seq!['a', '.', 'z', 'i', 'p']);
            assert(n.subrange(2, 5) =~= "zip"@);
        },
        ArchiveFormat::Tar => {
            assert(n =~= seq!['a', '.', 't', 'a', 'r']);
            assert(n.subrange(2, 5) =~= "tar"@);
        },
        ArchiveFormat::TarGz => {
            assert(n =~= seq!['a', '.', 't', 'a', 'r', '.', 'g', 'z']);
            assert(n.subrange(6, 8) =~= "gz"@);
        },
        ArchiveFormat::TarBz2 => {
            assert(n =~= seq!['a', '.', 't', 'a', 'r', '.', 'b', 'z', '2']);
            assert(n.subrange(6, 9) =~= "bz2"@);
        },
        ArchiveFormat::TarXz => {
            assert(n =~= seq!['a', '.', 't', 'a', 'r', '.', 'x', 'z']);
            assert(n.subrange(6, 8) =~= "xz"@);
        },
        ArchiveFormat::Rar => {},
    }
}

/// Plain text is previewed as text whatever its length: where the bytes a
/// preview looks at are valid UTF-8 whose characters are all printable
/// ASCII or ASCII whitespace, and do not start with an image signature, the
/// preview is their text.
pub proof fn law_plain_text_previews_as_text(bytes: Seq<u8>, max: nat, d: PreviewData)
    requires
        preview_of(bytes, max, d),
        !looks_like_image(truncated(bytes, max)),
        valid_utf8(truncated(bytes, max)),
        all_plain(decode_utf8(truncated(bytes, max))),
    ensures
        d matches PreviewData::Text(s) && s@ == decode_utf8(truncated(bytes, max)),
{
}

/// Text of ASCII characters is encoded one byte per character, each byte
/// the character's code.
proof fn lemma_ascii_encoding(s: Seq<char>)
    requires
        forall|i: int| 0 <= i < s.len() ==> (#[trigger] s[i]) as u32 <= 0x7f,
    ensures
        encode_utf8(s).len() == s.len(),
        forall|i: int| 0 <= i < s.len() ==> (#[trigger] encode_utf8(s)[i]) as u32 == s[i] as u32,
    decreases s.len(),
{
    if s.len() > 0 {
        let rest = s.drop_first();
        assert forall|i: int| 0 <= i < rest.len() implies (#[trigger] rest[i]) as u32 <= 0x7f by {
            assert(rest[i] == s[i + 1]);
        }
        lemma_ascii_encoding(rest);
        let c: u32 = s[0] as u32;
        assert((c & 0x7f) as u8 as u32 == c) by (bit_vector)
            requires
                c <= 0x7f,
        ;
        let e = encode_utf8(s);
        assert(e == encode_scalar(c) + encode_utf8(rest));
        assert(encode_scalar(c) =~= seq![(c & 0x7f) as u8]);
        assert forall|i: int| 0 <= i < s.len() implies (#[trigger] e[i]) as u32 == s[i] as u32 by {
            if i > 0 {
                assert(e[i] == encode_utf8(rest)[i - 1]);
                assert(rest[i - 1] == s[i]);
            }
        }
    }
}

/// A text made only of printable ASCII characters and ASCII whitespace,
/// whatever its length, is previewed as itself when its bytes fit in the
/// preview's limit.
pub proof fn law_plain_characters_preview_as_themselves(s: Seq<char>, max: nat, d: PreviewData)
    requires
        forall|i: int|
            0 <= i < s.len() ==> ({
                let c = #[trigger] s[i];
                ('!' <= c && c <= '~') || c == ' ' || c == '\t' || c == '\n' || c == '\r' || c == '\x0C'
            }),
        s.len() <= max,
        preview_of(encode_utf8(s), max, d),
    ensures
        d matches PreviewData::Text(x) && x@ == s,
{
    broadcast use vstd::utf8::encode_utf8_decode_utf8, vstd::utf8::encode_utf8_valid_utf8;

    assert forall|i: int| 0 <= i < s.len() implies (#[trigger] s[i]) as u32 <= 0x7f by {
        let c = s[i];
        assert(('!' <= c && c <= '~') || c == ' ' || c == '\t' || c == '\n' || c == '\r' || c == '\x0C');
    }
    lemma_ascii_encoding(s);
    let e = encode_utf8(s);
    assert(truncated(e, max) == e);
    if e.len() >= 4 {
        assert(e[0] as u32 == s[0] as u32);
        assert(e[0] < 0x80);
    }
    assert(!looks_like_image(e));
    assert(decode_utf8(e) == s);
    assert forall|i: int| 0 <= i < s.len() implies is_plain_char(#[trigger] s[i]) by {}
    assert(all_plain(decode_utf8(e)));
}

/// Bytes that start with the PNG signature (89 50 4E 47), or with the JPEG
/// one (FF D8 FF) in at least four bytes, are previewed as an image of
/// exactly the bytes looked at.
pub proof fn law_image_signatures_preview_as_images(bytes: Seq<u8>, max: nat, d: PreviewData)
    requires
        preview_of(bytes, max, d),
        truncated(bytes, max).len() >= 4,
        ({
            let t = truncated(bytes, max);
            (t[0] == 0x89u8 && t[1] == 0x50u8 && t[2] == 0x4eu8 && t[3] == 0x47u8) || (t[0] == 0xffu8 && t[1]
                == 0xd8u8 && t[2] == 0xffu8)
        }),
    ensures
        d matches PreviewData::Image(v) && v@ == truncated(bytes, max),
{
}

/// Short text is previewed as text: valid UTF-8 below 1024 bytes that does
/// not start with an image signature is shown as its text, plain or not.
pub proof fn law_short_text_previews_as_text(bytes: Seq<u8>, max: nat, d: PreviewData)
    requires
        preview_of(bytes, max, d),
        !looks_like_image(truncated(bytes, max)),
        valid_utf8(truncated(bytes, max)),
        truncated(bytes, max).len() < 1024,
    ensures
        d matches PreviewData::Text(s) && s@ == decode_utf8(truncated(bytes, max)),
{
}

/// Bytes that are not valid UTF-8 and carry no image signature are shown
/// as a hex dump of exactly the bytes looked at.
pub proof fn law_binary_previews_as_hex(bytes: Seq<u8>, max: nat, d: PreviewData)
    requires
        preview_of(bytes, max, d),
        !looks_like_image(truncated(bytes, max)),
        !valid_utf8(truncated(bytes, max)),
    ensures
        d matches PreviewData::Hex(v) && v@ == truncated(bytes, max),
{
}

/// The number that a text of decimal digits reads as.
pub open spec fn digits_value(s: Seq<char>) -> nat
    decreases s.len(),
{
    if s.len() == 0 {
        0
    } else {
        digits_value(s.drop_last()) * 10 + ((s.last() as nat) - ('0' as nat)) as nat
    }
}

/// The decimal text of a number, as the reports print it, is made of the
/// digits '0' to '9', starts with a zero only for zero itself, and reads
/// back as the number.
pub proof fn law_decimal_text_reads_back(n: nat)
    ensures
        decimal_text(n).len() > 0,
        forall|i: int| 0 <= i < decimal_text(n).len() ==> '0' <= #[trigger] decimal_text(n)[i] <= '9',
        decimal_text(n)[0] == '0' ==> n == 0,
        digits_value(decimal_text(n)) == n,
    decreases n,
{
    let d = n % 10;
    assert(decimal_digit(d) as nat == ('0' as nat) + d);
    if n < 10 {
        assert(decimal_text(n) =~= seq![decimal_digit(n)]);
        assert(decimal_text(n).drop_last() =~= Seq::<char>::empty());
        assert(digits_value(Seq::<char>::empty()) == 0);
        assert(digits_value(decimal_text(n)) == 0 * 10 + n);
    } else {
        law_decimal_text_reads_back(n / 10);
        let p = decimal_text(n / 10);
        assert(decimal_text(n) == p.push(decimal_digit(n % 10)));
        assert(decimal_text(n).drop_last() =~= p);
        assert(decimal_text(n)[0] == p[0]);
        assert forall|i: int| 0 <= i < decimal_text(n).len() implies '0' <= #[trigger] decimal_text(n)[i] <= '9' by {
            if i < p.len() {
                assert(decimal_text(n)[i] == p[i]);
            }
        }
        assert(decimal_text(n).last() == decimal_digit(d));
        assert(digits_value(decimal_text(n)) == digits_value(p) * 10 + d);
        assert(n == (n / 10) * 10 + n % 10);
    }
}

/// Each verdict of a test is a pass or a failure: the passes and the
/// failures together are as many as the verdicts, and every failure kept
/// is the failure of some verdict.
pub proof fn law_verdicts_split_into_passes_and_failures(vs: Seq<Option<TestFailure>>)
    ensures
        passes_of(vs) + failures_of(vs).len() == vs.len(),
        forall|i: int|
            0 <= i < failures_of(vs).len() ==> exists|k: int|
                0 <= k < vs.len() && vs[k] == Some(#[trigger] failures_of(vs)[i]),
    decreases vs.len(),
{
    if vs.len() > 0 {
        let init = vs.drop_last();
        law_verdicts_split_into_passes_and_failures(init);
        let fs = failures_of(vs);
        assert forall|i: int| 0 <= i < fs.len() implies exists|k: int|
            0 <= k < vs.len() && vs[k] == Some(#[trigger] fs[i]) by {
            if i < failures_of(init).len() {
                assert(fs[i] == failures_of(init)[i]);
                let k = choose|k: int| 0 <= k < init.len() && init[k] == Some(#[trigger] failures_of(init)[i]);
                assert(vs[k] == init[k]);
            } else {
                assert(vs[vs.len() - 1] == vs.last());
            }
        }
    }
}

/// The number that a text of lowercase hexadecimal digits reads as.
pub open spec fn hex_digits_value(s: Seq<char>) -> nat
    decreases s.len(),
{
    if s.len() == 0 {
        0
    } else {
        let c = s.last();
        let d: nat = if '0' <= c && c <= '9' {
            ((c as nat) - ('0' as nat)) as nat
        } else {
            ((c as nat) - ('a' as nat) + 10) as nat
        };
        hex_digits_value(s.drop_last()) * 16 + d
    }
}

/// Sixteen to the power `w`.
pub open spec fn pow16(w: nat) -> nat
    decreases w,
{
    if w == 0 {
        1
    } else {
        16 * pow16((w - 1) as nat)
    }
}

/// A fixed-width hexadecimal text has exactly `width` digits, each of '0'
/// to '9' or 'a' to 'f', and reads back as the lowest `width` digits of the
/// value: the value itself where it fits.
pub proof fn law_hex_text_reads_back(v: nat, width: nat)
    ensures
        hex_text(v, width).len() == width,
        forall|i: int|
            0 <= i < width ==> ('0' <= #[trigger] hex_text(v, width)[i] <= '9') || ('a' <= hex_text(v, width)[i]
                <= 'f'),
        pow16(width) > 0,
        hex_digits_value(hex_text(v, width)) == v % pow16(width),
    decreases width,
{
    if width == 0 {
        assert(v % 1 == 0);
    } else {
        let w1 = (width - 1) as nat;
        law_hex_text_reads_back(v / 16, w1);
        let p = hex_text(v / 16, w1);
        let d = v % 16;
        let c = hex_digit(d);
        assert(hex_text(v, width) == p.push(c));
        assert(hex_text(v, width).drop_last() =~= p);
        assert forall|i: int| 0 <= i < width implies ('0' <= #[trigger] hex_text(v, width)[i] <= '9') || ('a'
            <= hex_text(v, width)[i] <= 'f') by {
            if i < w1 {
                assert(hex_text(v, width)[i] == p[i]);
            }
        }
        if d < 10 {
            assert(c as nat == ('0' as nat) + d);
        } else {
            assert(c as nat == ('a' as nat) + (d - 10));
        }
        assert(hex_digits_value(hex_text(v, width)) == hex_digits_value(p) * 16 + d);
        vstd::arithmetic::div_mod::lemma_mod_breakdown(v as int, 16, pow16(w1) as int);
        assert(pow16(width) == 16 * pow16(w1));
        assert(16 * pow16(w1) == pow16(w1) * 16) by (nonlinear_arith);
        assert(((v / 16) % pow16(w1)) * 16 == 16 * ((v / 16) % pow16(w1))) by (nonlinear_arith);
    }
}

/// With an archive open and something selected every menu bar action can be
/// used; with no archive open and nothing selected only opening, creating,
/// the settings and "About" can.
pub proof fn law_menu_actions_follow_the_state(action: MenuAction)
    ensures
        action_allowed(action, true, true),
        action_allowed(action, false, false) == (action == MenuAction::OpenArchive || action
            == MenuAction::CreateArchive || action == MenuAction::ShowSettings || action == MenuAction::About),
{
}

/// Opening an archive or selecting entries never takes a menu bar action
/// away.
pub proof fn law_menu_actions_grow_with_the_state(action: MenuAction, is_open: bool, has_selection: bool)
    requires
        action_allowed(action, is_open, has_selection),
    ensures
        action_allowed(action, true, has_selection),
        action_allowed(action, is_open, true),
{
}

/// The command-line report of an archive's test names the passed entries
/// before the total: "Test result: P/T passed", and then the archive is
/// closed and the run ends.
pub proof fn law_cli_test_report_counts_passes(path: String, password: Option<String>, t: TestResult)
    ensures
        cli_next(Some(Commands::Test { path, password }), CliState::Operating, CliEvent::Tested(Ok(t))) == (
            CliState::Done,
            seq![
                ActionView::Print(
                    "Test result: "@ + decimal_text(t.passed as nat) + "/"@ + decimal_text(t.total as nat)
                        + " passed"@,
                ),
                ActionView::Close,
            ],
        ),
{
}

/// An extraction on the command line extracts every entry that the
/// properties count, and its report names that count.
pub proof fn law_cli_extract_reports_the_counted_entries(
    path: String,
    to: Option<String>,
    password: Option<String>,
    p: ArchiveProperties,
)
    ensures
        ({
            let c = Some(Commands::Extract { path, to, password });
            let first = cli_next(c, CliState::Operating, CliEvent::Properties(Ok(p)));
            let second = cli_next(c, first.0, CliEvent::Extracted(Ok(())));
            &&& first.1.len() == 1
            &&& first.1[0] matches ActionView::Extract { indices, .. } && indices.len() == p.items_count
                && forall|k: int| 0 <= k < indices.len() ==> indices[k] == k
            &&& second.0 is Done
            &&& second.1.len() == 2
            &&& second.1[0] matches ActionView::Print(m) && m.subrange(0, 10) == "Extracted "@ && m.subrange(
                10,
                10 + decimal_text(p.items_count as nat).len() as int,
            ) == decimal_text(p.items_count as nat)
            &&& second.1[1] is Close
        }),
{
    reveal_strlit("Extracted ");
    let c = Some(Commands::Extract { path, to, password });
    let first = cli_next(c, CliState::Operating, CliEvent::Properties(Ok(p)));
    let second = cli_next(c, first.0, CliEvent::Extracted(Ok(())));
    let m = second.1[0]->Print_0;
    let d = decimal_text(p.items_count as nat);
    assert(m.subrange(0, 10) =~= "Extracted "@);
    assert(m.subrange(10, 10 + d.len() as int) =~= d);
}

/// Entering a subdirectory extends the current path by the directory's
/// name and a '/', so the old path is a prefix of the new one, and the old
/// path is remembered for going back.
pub proof fn law_entering_extends_the_path(n: NavModel, dir: Seq<char>)
    ensures
        nav_into(n, dir).current == n.current + dir + seq!['/'],
        nav_into(n, dir).current.len() == n.current.len() + dir.len() + 1,
        nav_into(n, dir).current.subrange(0, n.current.len() as int) == n.current,
        nav_into(n, dir).history.last() == n.current,
{
    reveal_strlit("/");
    assert(nav_into(n, dir).current =~= n.current + dir + seq!['/']);
    assert(nav_into(n, dir).current.subrange(0, n.current.len() as int) =~= n.current);
}

/// Entering two directories from the root gives "first/second/".
pub proof fn law_entering_twice_from_the_root(a: Seq<char>, b: Seq<char>)
    ensures
        nav_into(nav_into(nav_root(), a), b).current == a + seq!['/'] + b + seq!['/'],
{
    reveal_strlit("/");
    assert(nav_into(nav_into(nav_root(), a), b).current =~= a + seq!['/'] + b + seq!['/']);
}

/// Rounding to the nearest: the rounded quotient of `a` by `d` is off by at
/// most half of `d`, and an exact tie goes to the even quotient.
pub proof fn law_rounding_is_to_nearest(a: nat, d: nat)
    requires
        d > 0,
    ensures
        round_half_even(a, d) * d <= a + d / 2 + 1,
        a <= round_half_even(a, d) * d + d / 2,
        2 * (a % d) == d ==> round_half_even(a, d) % 2 == 0,
        a % d == 0 ==> round_half_even(a, d) == a / d,
{
    let q = a / d;
    let r = a % d;
    assert(a == q * d + r) by {
        vstd::arithmetic::div_mod::lemma_fundamental_div_mod(a as int, d as int);
    }
    assert(0 <= r < d) by {
        vstd::arithmetic::div_mod::lemma_mod_bound(a as int, d as int);
    }
    assert((q + 1) * d == q * d + d) by (nonlinear_arith);
}

/// In a loaded directory, directories come before files, and entries of
/// the same kind are ordered by their lowercase names.
pub proof fn law_directories_list_first(a: ArchiveEntry, b: ArchiveEntry)
    ensures
        a.is_directory && !b.is_directory ==> entry_less(a, b) && !entry_less(b, a),
        a.is_directory == b.is_directory ==> entry_less(a, b) == crate::text::lex_less(
            lowercase_of(a.name@),
            lowercase_of(b.name@),
        ),
{
}

/// Every row that the filter shows is the row of an entry that matches it.
#[verifier::spinoff_prover]
proof fn lemma_filtered_rows_match(entries: Seq<CachedEntry>, filter: Seq<char>)
    ensures
        forall|i: int|
            0 <= i < filtered_rows(entries, filter).len() ==> exists|k: int|
                0 <= k < entries.len() && level_of(entries[k]) == #[trigger] filtered_rows(entries, filter)[i]
                    && passes_filter(entries[k], filter),
    decreases entries.len(),
{
    if entries.len() > 0 {
        let init = entries.drop_last();
        lemma_filtered_rows_match(init, filter);
        let rest = filtered_rows(init, filter);
        let out = filtered_rows(entries, filter);
        assert forall|i: int| 0 <= i < out.len() implies exists|k: int|
            0 <= k < entries.len() && level_of(entries[k]) == #[trigger] out[i] && passes_filter(
                entries[k],
                filter,
            ) by {
            if i < rest.len() {
                assert(out[i] == rest[i]);
                let k = choose|k: int|
                    0 <= k < init.len() && level_of(init[k]) == #[trigger] rest[i] && passes_filter(
                        init[k],
                        filter,
                    );
                assert(entries[k] == init[k]);
            } else {
                assert(entries[entries.len() - 1] == entries.last());
            }
        }
    }
}

/// Every entry that matches the filter has its row shown.
#[verifier::spinoff_prover]
proof fn lemma_matches_are_shown(entries: Seq<CachedEntry>, filter: Seq<char>)
    ensures
        forall|k: int|
            0 <= k < entries.len() && passes_filter(#[trigger] entries[k], filter) ==> filtered_rows(
                entries,
                filter,
            ).contains(level_of(entries[k])),
    decreases entries.len(),
{
    if entries.len() > 0 {
        let init = entries.drop_last();
        lemma_matches_are_shown(init, filter);
        let rest = filtered_rows(init, filter);
        let out = filtered_rows(entries, filter);
        assert forall|k: int| 0 <= k < entries.len() && passes_filter(#[trigger] entries[k], filter) implies out.contains(
            level_of(entries[k]),
        ) by {
            if k < init.len() {
                assert(init[k] == entries[k]);
                assert(rest.contains(level_of(init[k])));
                let j = choose|j: int| 0 <= j < rest.len() && rest[j] == level_of(init[k]);
                if passes_filter(entries.last(), filter) {
                    assert(out == rest.push(level_of(entries.last())));
                } else {
                    assert(out == rest);
                }
                assert(out[j] == rest[j]);
            } else {
                assert(entries[k] == entries.last());
                assert(out == rest.push(level_of(entries.last())));
                assert(out[rest.len() as int] == level_of(entries[k]));
            }
        }
    }
}

/// The filter shows exactly the entries whose lowercase path contains the
/// lowercase filter text (all of them for an empty filter), in their order:
/// every row shown is the row of such an entry, and every such entry has
/// its row shown.
pub proof fn law_filter_shows_the_matching_entries(entries: Seq<CachedEntry>, filter: Seq<char>)
    ensures
        forall|i: int|
            0 <= i < filtered_rows(entries, filter).len() ==> exists|k: int|
                0 <= k < entries.len() && level_of(entries[k]) == #[trigger] filtered_rows(entries, filter)[i] && (
                filter.len() == 0 || contains_text(lowercase_of(entries[k].entry.path@), lowercase_of(filter))),
        forall|k: int|
            0 <= k < entries.len() && (filter.len() == 0 || contains_text(
                lowercase_of(#[trigger] entries[k].entry.path@),
                lowercase_of(filter),
            )) ==> filtered_rows(entries, filter).contains(level_of(entries[k])),
{
    lemma_filtered_rows_match(entries, filter);
    lemma_matches_are_shown(entries, filter);
    assert forall|k: int|
        0 <= k < entries.len() && (filter.len() == 0 || contains_text(
            lowercase_of(#[trigger] entries[k].entry.path@),
            lowercase_of(filter),
        )) implies filtered_rows(entries, filter).contains(level_of(entries[k])) by {
        assert(passes_filter(entries[k], filter));
    }
}

/// Trimming the copies of `c` from the end of a text only removes them: what
/// is left is a prefix of the text that does not end in `c`, and everything
/// after it is `c`.
pub proof fn law_trimming_removes_trailing_separators(s: Seq<char>, c: char)
    ensures
        trim_end(s, c).len() <= s.len(),
        trim_end(s, c) == s.subrange(0, trim_end(s, c).len() as int),
        trim_end(s, c).len() > 0 ==> trim_end(s, c).last() != c,
        forall|i: int| trim_end(s, c).len() <= i < s.len() ==> s[i] == c,
    decreases s.len(),
{
    if s.len() > 0 && s.last() == c {
        law_trimming_removes_trailing_separators(s.drop_last(), c);
        let t = trim_end(s.drop_last(), c);
        assert(s.drop_last().subrange(0, t.len() as int) =~= s.subrange(0, t.len() as int));
        assert forall|i: int| t.len() <= i < s.len() implies s[i] == c by {
            if i < s.len() - 1 {
                assert(s.drop_last()[i] == s[i]);
            }
        }
    } else {
        assert(s.subrange(0, s.len() as int) =~= s);
    }
}

/// Counts below 2^53 are exact as doubles.
proof fn lemma_small_counts_are_exact(n: nat)
    requires
        n < 0x20_0000_0000_0000,
    ensures
        double_value(n) == n,
{
    assert(double_spacing(n) == 1);
    assert(n / 1 == n && n % 1 == 0) by (nonlinear_arith);
}

/// Sizes below 1 KB are shown in bytes; sizes in the KB and MB ranges are
/// shown in tenths of that unit, off from the exact value by at most half a
/// tenth.
pub proof fn law_sizes_show_the_nearest_tenth(n: nat)
    ensures
        n < 1024 ==> human_size_text(n) == decimal_text(n) + " B"@,
        1024 <= n < 0x10_0000 ==> exists|q: nat|
            human_size_text(n) == fixed_text(q, 1) + " KB"@ && q * 1024 <= n * 10 + 513 && n * 10 <= q * 1024
                + 512,
        0x10_0000 <= n < 0x4000_0000 ==> exists|q: nat|
            human_size_text(n) == fixed_text(q, 1) + " MB"@ && q * 0x10_0000 <= n * 10 + 0x8_0001 && n * 10
                <= q * 0x10_0000 + 0x8_0000,
{
    if 1024 <= n < 0x10_0000 {
        lemma_small_counts_are_exact(n);
        law_rounding_is_to_nearest(n * 10, KIB as nat);
        let q = round_half_even(n * 10, KIB as nat);
        assert(human_size_text(n) == fixed_text(q, 1) + " KB"@);
    }
    if 0x10_0000 <= n < 0x4000_0000 {
        lemma_small_counts_are_exact(n);
        law_rounding_is_to_nearest(n * 10, MIB as nat);
        let q = round_half_even(n * 10, MIB as nat);
        assert(human_size_text(n) == fixed_text(q, 1) + " MB"@);
    }
}

} // verus!
