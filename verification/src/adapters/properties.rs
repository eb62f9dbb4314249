//! The property sheets that the properties dialogs show: sections of
//! labelled values describing an entry or an archive.
use crate::adapters::views::{bool_yn, props_type_label, type_label};
use crate::domain::archive::{opt_view, ArchiveEntry};
use crate::domain::repository::ArchiveProperties;
use crate::sizes::{human_size, human_size_text};
use crate::text::{decimal, decimal_text, hex_upper_text, octal_text, push_hex_upper, push_octal};
use vstd::prelude::*;
use vstd::string::*;

verus! {

broadcast use vstd::string::group_string_axioms;

/// A time (seconds since the epoch) as chrono writes a UTC date and time
/// ("2024-01-31 12:00:00 UTC"); `None` where chrono cannot represent it.
pub uninterp spec fn utc_time_text(secs: i64) -> Option<Seq<char>>;

/// Calls `chrono::DateTime::from_timestamp` and writes the result with its
/// `Display` impl.
#[verifier::external_body]
fn utc_time(secs: i64) -> (r: Option<String>)
    ensures
        opt_view(r) == utc_time_text(secs),
{
    match chrono::DateTime::from_timestamp(secs, 0) {
        Some(d) => Some(d.to_string()),
        None => None,
    }
}

/// A labelled value.
#[derive(Debug, Clone)]
pub struct PropertyRow {
    pub label: String,
    pub value: String,
}

/// A titled group of labelled values.
#[derive(Debug, Clone)]
pub struct PropertySection {
    pub title: String,
    pub rows: Vec<PropertyRow>,
}

/// The labels and values of rows.
pub open spec fn rows_view(rows: Seq<PropertyRow>) -> Seq<(Seq<char>, Seq<char>)> {
    rows.map_values(|r: PropertyRow| (r.label@, r.value@))
}

/// The titles and rows of sections.
pub open spec fn sheet_view(s: Seq<PropertySection>) -> Seq<(Seq<char>, Seq<(Seq<char>, Seq<char>)>)> {
    s.map_values(|x: PropertySection| (x.title@, rows_view(x.rows@)))
}

/// A row where there is a value, none otherwise.
pub open spec fn opt_row(label: Seq<char>, value: Option<Seq<char>>) -> Seq<(Seq<char>, Seq<char>)> {
    match value {
        Some(v) => seq![(label, v)],
        None => Seq::empty(),
    }
}

/// A row where `shown` holds, none otherwise.
pub open spec fn flag_row(label: Seq<char>, value: Seq<char>, shown: bool) -> Seq<(Seq<char>, Seq<char>)> {
    if shown {
        seq![(label, value)]
    } else {
        Seq::empty()
    }
}

/// A section where it has rows, none otherwise.
pub open spec fn section_if_any(title: Seq<char>, rows: Seq<(Seq<char>, Seq<char>)>) -> Seq<
    (Seq<char>, Seq<(Seq<char>, Seq<char>)>),
> {
    if rows.len() > 0 {
        seq![(title, rows)]
    } else {
        Seq::empty()
    }
}

/// The time text of an optional timestamp.
pub open spec fn time_of(t: Option<i64>) -> Option<Seq<char>> {
    match t {
        Some(s) => utc_time_text(s),
        None => None,
    }
}

/// The size and checksum rows of an entry: size, packed size, ratio (as
/// given), and the checksum in eight uppercase hexadecimal digits where it
/// is known.
pub open spec fn size_rows(e: ArchiveEntry, ratio: Seq<char>) -> Seq<(Seq<char>, Seq<char>)> {
    seq![
        ("Size"@, human_size_text(e.size as nat)),
        ("Packed"@, human_size_text(e.compressed_size as nat)),
        ("Ratio"@, ratio),
    ] + opt_row(
        "CRC"@,
        match e.crc {
            Some(c) => Some(hex_upper_text(c as nat, 8)),
            None => None,
        },
    )
}

/// The time rows of an entry: modified, created, accessed.
pub open spec fn time_rows(e: ArchiveEntry) -> Seq<(Seq<char>, Seq<char>)> {
    opt_row("Modified"@, time_of(e.modified)) + opt_row("Created"@, time_of(e.created)) + opt_row(
        "Accessed"@,
        time_of(e.accessed),
    )
}

/// The platform rows of an entry: host system (decimal), attributes (eight
/// uppercase hexadecimal digits), POSIX mode (octal), owner and group.
pub open spec fn platform_rows(e: ArchiveEntry) -> Seq<(Seq<char>, Seq<char>)> {
    opt_row(
        "Host OS"@,
        match e.host_os {
            Some(h) => Some(decimal_text(h as nat)),
            None => None,
        },
    ) + opt_row(
        "Attributes"@,
        match e.attributes {
            Some(a) => Some(hex_upper_text(a as nat, 8)),
            None => None,
        },
    ) + opt_row(
        "POSIX"@,
        match e.posix_attrib {
            Some(p) => Some(octal_text(p as nat)),
            None => None,
        },
    ) + opt_row("Owner"@, opt_view(e.user)) + opt_row("Group"@, opt_view(e.group))
}

/// The technical rows of an entry: compression method, symlink, comment.
pub open spec fn tech_rows(e: ArchiveEntry) -> Seq<(Seq<char>, Seq<char>)> {
    opt_row("Method"@, opt_view(e.compression_method)) + flag_row("Symlink"@, "Yes"@, e.is_symlink) + opt_row(
        "Comment"@,
        opt_view(e.comment),
    )
}

/// The sections that follow "General" for an entry: time, platform,
/// security, links (where `with_links`) and technical, each where it has
/// rows.
pub open spec fn detail_sections(e: ArchiveEntry, with_links: bool) -> Seq<
    (Seq<char>, Seq<(Seq<char>, Seq<char>)>),
> {
    section_if_any("Time"@, time_rows(e)) + section_if_any("Platform"@, platform_rows(e)) + section_if_any(
        "Security"@,
        flag_row("Encrypted"@, "Yes"@, e.is_encrypted),
    ) + section_if_any("Links"@, if with_links { opt_row("Hardlink target"@, opt_view(e.hardlink)) } else {
        Seq::empty()
    }) + section_if_any("Technical"@, tech_rows(e))
}

/// The sheet of the properties dialog for one entry: "General" with name,
/// path, extension ("-" where there is none) and the size rows, then the
/// detail sections, links included.
pub open spec fn entry_sheet(e: ArchiveEntry, ratio: Seq<char>) -> Seq<(Seq<char>, Seq<(Seq<char>, Seq<char>)>)> {
    seq![
        (
            "General"@,
            seq![
                ("Name"@, e.name@),
                ("Path"@, e.path@),
                (
                    "Extension"@,
                    match e.extension {
                        Some(x) => x@,
                        None => "-"@,
                    },
                ),
            ] + size_rows(e, ratio),
        ),
    ] + detail_sections(e, true)
}

/// The sheet of the entries' properties dialog for one entry: "General"
/// with name, type, path and the size rows, then the detail sections
/// without links.
pub open spec fn entry_summary_sheet(e: ArchiveEntry, ratio: Seq<char>) -> Seq<
    (Seq<char>, Seq<(Seq<char>, Seq<char>)>),
> {
    seq![
        (
            "General"@,
            seq![
                ("Name"@, e.name@),
                ("Type"@, if e.is_directory { "Directory"@ } else { "File"@ }),
                ("Path"@, e.path@),
            ] + size_rows(e, ratio),
        ),
    ] + detail_sections(e, false)
}

/// "Yes" or "No".
pub open spec fn yes_no(v: bool) -> Seq<char> {
    if v {
        "Yes"@
    } else {
        "No"@
    }
}

/// The "General" rows of the archive properties: kind, location, sizes,
/// ratio (as given where the archive has a size, else "0%"), counts.
pub open spec fn archive_general(path: Seq<char>, p: ArchiveProperties, ratio: Seq<char>) -> Seq<
    (Seq<char>, Seq<char>),
> {
    seq![
        ("Type"@, type_label(p.is_solid, p.is_multi_volume)),
        ("Location"@, path),
        ("Size"@, human_size_text(p.total_size as nat)),
        ("Packed"@, human_size_text(p.packed_size as nat)),
        ("Ratio"@, if p.total_size > 0 { ratio } else { "0%"@ }),
        ("Files"@, decimal_text(p.files_count as nat)),
        ("Folders"@, decimal_text(p.folders_count as nat)),
        ("Headers size"@, human_size_text(p.headers_size as nat)),
        ("Volumes"@, decimal_text(p.volumes_count as nat)),
    ]
}

/// The "Advanced" rows of the archive properties: the flags, and the
/// dictionary size where it is known.
pub open spec fn archive_advanced(p: ArchiveProperties) -> Seq<(Seq<char>, Seq<char>)> {
    seq![
        ("Solid"@, yes_no(p.is_solid)),
        ("Encrypted"@, yes_no(p.is_encrypted)),
        ("Encrypted names"@, yes_no(p.encrypted_names)),
        ("Multi-volume"@, yes_no(p.is_multi_volume)),
        ("Has comment"@, yes_no(p.has_comment)),
        ("Recovery record"@, yes_no(p.has_recovery_record)),
        ("Locked"@, yes_no(p.locked)),
    ] + opt_row(
        "Dictionary"@,
        match p.dictionary_size {
            Some(d) => Some(human_size_text(d as nat)),
            None => None,
        },
    )
}

/// The sheet of the archive properties: "General" then "Advanced".
pub open spec fn archive_sheet(path: Seq<char>, p: ArchiveProperties, ratio: Seq<char>) -> Seq<
    (Seq<char>, Seq<(Seq<char>, Seq<char>)>),
> {
    seq![("General"@, archive_general(path, p, ratio)), ("Advanced"@, archive_advanced(p))]
}

// ---------------------------------------------------------------------------
// Building the sheets
// ---------------------------------------------------------------------------

fn push_row(rows: &mut Vec<PropertyRow>, label: &str, value: String)
    ensures
        rows_view(final(rows)@) == rows_view(old(rows)@).push((label@, value@)),
{
    rows.push(PropertyRow { label: String::from_str(label), value });
    assert(rows_view(rows@) =~= rows_view(old(rows)@).push((label@, value@)));
}

fn push_opt_row(rows: &mut Vec<PropertyRow>, label: &str, value: Option<String>)
    ensures
        rows_view(final(rows)@) == rows_view(old(rows)@) + opt_row(label@, opt_view(value)),
{
    match value {
        Some(v) => {
            push_row(rows, label, v);
            assert(rows_view(old(rows)@).push((label@, v@)) =~= rows_view(old(rows)@) + seq![(label@, v@)]);
        },
        None => {
            assert(rows_view(old(rows)@) + Seq::<(Seq<char>, Seq<char>)>::empty() =~= rows_view(old(rows)@));
        },
    }
}

fn push_flag_row(rows: &mut Vec<PropertyRow>, label: &str, value: &str, shown: bool)
    ensures
        rows_view(final(rows)@) == rows_view(old(rows)@) + flag_row(label@, value@, shown),
{
    if shown {
        push_row(rows, label, String::from_str(value));
        assert(rows_view(old(rows)@).push((label@, value@)) =~= rows_view(old(rows)@) + seq![(label@, value@)]);
    } else {
        assert(rows_view(old(rows)@) + Seq::<(Seq<char>, Seq<char>)>::empty() =~= rows_view(old(rows)@));
    }
}

fn push_section(sheet: &mut Vec<PropertySection>, title: &str, rows: Vec<PropertyRow>)
    ensures
        sheet_view(final(sheet)@) == sheet_view(old(sheet)@) + seq![(title@, rows_view(rows@))],
{
    let ghost rv = rows_view(rows@);
    sheet.push(PropertySection { title: String::from_str(title), rows });
    assert(sheet_view(sheet@) =~= sheet_view(old(sheet)@) + seq![(title@, rv)]);
}

fn push_section_if_any(sheet: &mut Vec<PropertySection>, title: &str, rows: Vec<PropertyRow>)
    ensures
        sheet_view(final(sheet)@) == sheet_view(old(sheet)@) + section_if_any(title@, rows_view(rows@)),
{
    if rows.len() > 0 {
        push_section(sheet, title, rows);
    } else {
        assert(sheet_view(old(sheet)@) + section_if_any(title@, rows_view(rows@)) =~= sheet_view(old(sheet)@));
    }
}

/// The text of an optional string.
fn opt_string(s: &Option<String>) -> (r: Option<String>)
    ensures
        opt_view(r) == opt_view(*s),
{
    match s {
        Some(t) => Some(t.clone()),
        None => None,
    }
}

fn time_value(t: Option<i64>) -> (r: Option<String>)
    ensures
        opt_view(r) == time_of(t),
{
    match t {
        Some(s) => utc_time(s),
        None => None,
    }
}

fn upper_hex8(v: u32) -> (r: String)
    ensures
        r@ == hex_upper_text(v as nat, 8),
{
    let mut s = String::new();
    push_hex_upper(&mut s, v as u64, 8);
    assert(Seq::<char>::empty() + hex_upper_text(v as nat, 8) =~= hex_upper_text(v as nat, 8));
    s
}

fn octal(v: u32) -> (r: String)
    ensures
        r@ == octal_text(v as nat),
{
    let mut s = String::new();
    push_octal(&mut s, v as u64);
    assert(Seq::<char>::empty() + octal_text(v as nat) =~= octal_text(v as nat));
    s
}

fn add_size_rows(rows: &mut Vec<PropertyRow>, e: &ArchiveEntry, ratio: &str)
    ensures
        rows_view(final(rows)@) == rows_view(old(rows)@) + size_rows(*e, ratio@),
{
    let ghost start = rows_view(rows@);
    push_row(rows, "Size", human_size(e.size));
    push_row(rows, "Packed", human_size(e.compressed_size));
    push_row(rows, "Ratio", String::from_str(ratio));
    let crc = match e.crc {
        Some(c) => Some(upper_hex8(c)),
        None => None,
    };
    push_opt_row(rows, "CRC", crc);
    assert(rows_view(rows@) =~= start + size_rows(*e, ratio@));
}

fn time_row_list(e: &ArchiveEntry) -> (r: Vec<PropertyRow>)
    ensures
        rows_view(r@) == time_rows(*e),
{
    let mut rows: Vec<PropertyRow> = Vec::new();
    push_opt_row(&mut rows, "Modified", time_value(e.modified));
    push_opt_row(&mut rows, "Created", time_value(e.created));
    push_opt_row(&mut rows, "Accessed", time_value(e.accessed));
    assert(rows_view(rows@) =~= time_rows(*e));
    rows
}

fn platform_row_list(e: &ArchiveEntry) -> (r: Vec<PropertyRow>)
    ensures
        rows_view(r@) == platform_rows(*e),
{
    let mut rows: Vec<PropertyRow> = Vec::new();
    let host = match e.host_os {
        Some(h) => Some(decimal(h as u64)),
        None => None,
    };
    push_opt_row(&mut rows, "Host OS", host);
    let attrs = match e.attributes {
        Some(a) => Some(upper_hex8(a)),
        None => None,
    };
    push_opt_row(&mut rows, "Attributes", attrs);
    let posix = match e.posix_attrib {
        Some(p) => Some(octal(p)),
        None => None,
    };
    push_opt_row(&mut rows, "POSIX", posix);
    push_opt_row(&mut rows, "Owner", opt_string(&e.user));
    push_opt_row(&mut rows, "Group", opt_string(&e.group));
    assert(rows_view(rows@) =~= platform_rows(*e));
    rows
}

fn tech_row_list(e: &ArchiveEntry) -> (r: Vec<PropertyRow>)
    ensures
        rows_view(r@) == tech_rows(*e),
{
    let mut rows: Vec<PropertyRow> = Vec::new();
    push_opt_row(&mut rows, "Method", opt_string(&e.compression_method));
    push_flag_row(&mut rows, "Symlink", "Yes", e.is_symlink);
    push_opt_row(&mut rows, "Comment", opt_string(&e.comment));
    assert(rows_view(rows@) =~= tech_rows(*e));
    rows
}

fn add_detail_sections(sheet: &mut Vec<PropertySection>, e: &ArchiveEntry, with_links: bool)
    ensures
        sheet_view(final(sheet)@) == sheet_view(old(sheet)@) + detail_sections(*e, with_links),
{
    let ghost start = sheet_view(sheet@);
    push_section_if_any(sheet, "Time", time_row_list(e));
    push_section_if_any(sheet, "Platform", platform_row_list(e));
    let mut security: Vec<PropertyRow> = Vec::new();
    push_flag_row(&mut security, "Encrypted", "Yes", e.is_encrypted);
    assert(rows_view(security@) =~= flag_row("Encrypted"@, "Yes"@, e.is_encrypted));
    push_section_if_any(sheet, "Security", security);
    let mut links: Vec<PropertyRow> = Vec::new();
    if with_links {
        push_opt_row(&mut links, "Hardlink target", opt_string(&e.hardlink));
        assert(rows_view(links@) =~= opt_row("Hardlink target"@, opt_view(e.hardlink)));
    } else {
        assert(rows_view(links@) =~= Seq::<(Seq<char>, Seq<char>)>::empty());
    }
    push_section_if_any(sheet, "Links", links);
    push_section_if_any(sheet, "Technical", tech_row_list(e));
    assert(sheet_view(sheet@) =~= start + detail_sections(*e, with_links));
}

/// The sheet of the properties dialog for one entry (see `entry_sheet`);
/// `ratio` is the compression ratio as shown ("70%").
pub fn single_entry_sheet(entry: &ArchiveEntry, ratio: &str) -> (r: Vec<PropertySection>)
    ensures
        sheet_view(r@) == entry_sheet(*entry, ratio@),
{
    let mut general: Vec<PropertyRow> = Vec::new();
    assert(rows_view(general@) =~= Seq::<(Seq<char>, Seq<char>)>::empty());
    push_row(&mut general, "Name", entry.name.clone());
    push_row(&mut general, "Path", entry.path.clone());
    let ext = match &entry.extension {
        Some(x) => x.clone(),
        None => String::from_str("-"),
    };
    push_row(&mut general, "Extension", ext);
    add_size_rows(&mut general, entry, ratio);
    let ghost e = *entry;
    let ghost general_rows = seq![
        ("Name"@, e.name@),
        ("Path"@, e.path@),
        (
            "Extension"@,
            match e.extension {
                Some(x) => x@,
                None => "-"@,
            },
        ),
    ] + size_rows(e, ratio@);
    assert(rows_view(general@) =~= general_rows);
    let mut sheet: Vec<PropertySection> = Vec::new();
    assert(sheet_view(sheet@) =~= Seq::<(Seq<char>, Seq<(Seq<char>, Seq<char>)>)>::empty());
    push_section(&mut sheet, "General", general);
    add_detail_sections(&mut sheet, entry, true);
    assert(sheet_view(sheet@) =~= entry_sheet(*entry, ratio@));
    sheet
}

/// The sheet of the entries' properties dialog for one entry (see
/// `entry_summary_sheet`); `ratio` is the compression ratio as shown.
pub fn entry_summary(entry: &ArchiveEntry, ratio: &str) -> (r: Vec<PropertySection>)
    ensures
        sheet_view(r@) == entry_summary_sheet(*entry, ratio@),
{
    let mut general: Vec<PropertyRow> = Vec::new();
    assert(rows_view(general@) =~= Seq::<(Seq<char>, Seq<char>)>::empty());
    push_row(&mut general, "Name", entry.name.clone());
    let kind = if entry.is_directory {
        String::from_str("Directory")
    } else {
        String::from_str("File")
    };
    push_row(&mut general, "Type", kind);
    push_row(&mut general, "Path", entry.path.clone());
    add_size_rows(&mut general, entry, ratio);
    let ghost general_rows = seq![
        ("Name"@, entry.name@),
        ("Type"@, if entry.is_directory { "Directory"@ } else { "File"@ }),
        ("Path"@, entry.path@),
    ] + size_rows(*entry, ratio@);
    assert(rows_view(general@) =~= general_rows);
    let mut sheet: Vec<PropertySection> = Vec::new();
    assert(sheet_view(sheet@) =~= Seq::<(Seq<char>, Seq<(Seq<char>, Seq<char>)>)>::empty());
    push_section(&mut sheet, "General", general);
    add_detail_sections(&mut sheet, entry, false);
    assert(sheet_view(sheet@) =~= entry_summary_sheet(*entry, ratio@));
    sheet
}

fn yes_no_text(v: bool) -> (r: String)
    ensures
        r@ == yes_no(v),
{
    String::from_str(bool_yn(v))
}

fn archive_general_rows(path: &str, props: &ArchiveProperties, ratio: &str) -> (r: Vec<PropertyRow>)
    ensures
        rows_view(r@) == archive_general(path@, *props, ratio@),
{
    let mut rows: Vec<PropertyRow> = Vec::new();
    assert(rows_view(rows@) =~= Seq::<(Seq<char>, Seq<char>)>::empty());
    push_row(&mut rows, "Type", props_type_label(props));
    push_row(&mut rows, "Location", String::from_str(path));
    push_row(&mut rows, "Size", human_size(props.total_size));
    push_row(&mut rows, "Packed", human_size(props.packed_size));
    let r = if props.total_size > 0 {
        String::from_str(ratio)
    } else {
        String::from_str("0%")
    };
    push_row(&mut rows, "Ratio", r);
    push_row(&mut rows, "Files", decimal(props.files_count as u64));
    push_row(&mut rows, "Folders", decimal(props.folders_count as u64));
    push_row(&mut rows, "Headers size", human_size(props.headers_size));
    push_row(&mut rows, "Volumes", decimal(props.volumes_count as u64));
    assert(rows_view(rows@) =~= archive_general(path@, *props, ratio@));
    rows
}

fn archive_advanced_rows(props: &ArchiveProperties) -> (r: Vec<PropertyRow>)
    ensures
        rows_view(r@) == archive_advanced(*props),
{
    let mut rows: Vec<PropertyRow> = Vec::new();
    assert(rows_view(rows@) =~= Seq::<(Seq<char>, Seq<char>)>::empty());
    push_row(&mut rows, "Solid", yes_no_text(props.is_solid));
    push_row(&mut rows, "Encrypted", yes_no_text(props.is_encrypted));
    push_row(&mut rows, "Encrypted names", yes_no_text(props.encrypted_names));
    push_row(&mut rows, "Multi-volume", yes_no_text(props.is_multi_volume));
    push_row(&mut rows, "Has comment", yes_no_text(props.has_comment));
    push_row(&mut rows, "Recovery record", yes_no_text(props.has_recovery_record));
    push_row(&mut rows, "Locked", yes_no_text(props.locked));
    let dict = match props.dictionary_size {
        Some(d) => Some(human_size(d)),
        None => None,
    };
    push_opt_row(&mut rows, "Dictionary", dict);
    assert(rows_view(rows@) =~= archive_advanced(*props));
    rows
}

/// The sheet of the archive properties dialog (see `archive_sheet`);
/// `ratio` is the compression ratio as shown.
pub fn archive_property_sheet(path: &str, props: &ArchiveProperties, ratio: &str) -> (r: Vec<PropertySection>)
    ensures
        sheet_view(r@) == archive_sheet(path@, *props, ratio@),
{
    let mut sheet: Vec<PropertySection> = Vec::new();
    assert(sheet_view(sheet@) =~= Seq::<(Seq<char>, Seq<(Seq<char>, Seq<char>)>)>::empty());
    push_section(&mut sheet, "General", archive_general_rows(path, props, ratio));
    push_section(&mut sheet, "Advanced", archive_advanced_rows(props));
    assert(sheet_view(sheet@) =~= archive_sheet(path@, *props, ratio@));
    sheet
}

// ---------------------------------------------------------------------------
// Several entries
// ---------------------------------------------------------------------------

/// The sum of the sizes of the entries.
pub open spec fn size_total(entries: Seq<ArchiveEntry>) -> nat
    decreases entries.len(),
{
    if entries.len() == 0 {
        0
    } else {
        size_total(entries.drop_last()) + (entries.last().size as nat)
    }
}

/// The sum of the packed sizes of the entries.
pub open spec fn packed_total(entries: Seq<ArchiveEntry>) -> nat
    decreases entries.len(),
{
    if entries.len() == 0 {
        0
    } else {
        packed_total(entries.drop_last()) + (entries.last().compressed_size as nat)
    }
}

proof fn lemma_totals_grow(entries: Seq<ArchiveEntry>, i: int)
    requires
        0 <= i <= entries.len(),
    ensures
        size_total(entries.take(i)) <= size_total(entries),
        packed_total(entries.take(i)) <= packed_total(entries),
    decreases entries.len() - i,
{
    if i < entries.len() {
        lemma_totals_grow(entries, i + 1);
        assert(entries.take(i + 1).drop_last() =~= entries.take(i));
    } else {
        assert(entries.take(i) =~= entries);
    }
}

/// The totals of several entries: their summed size and packed size, and
/// their count.
pub open spec fn totals_sheet(entries: Seq<ArchiveEntry>) -> Seq<(Seq<char>, Seq<(Seq<char>, Seq<char>)>)> {
    seq![
        (
            "Totals"@,
            seq![
                ("Size"@, human_size_text(size_total(entries))),
                ("Packed"@, human_size_text(packed_total(entries))),
                ("Files"@, decimal_text(entries.len())),
            ],
        ),
    ]
}

/// The sheet of the entries' properties dialog for several entries (see
/// `totals_sheet`). The sums must fit in 64 bits.
pub fn entries_totals(entries: &[ArchiveEntry]) -> (r: Vec<PropertySection>)
    requires
        size_total(entries@) <= u64::MAX,
        packed_total(entries@) <= u64::MAX,
    ensures
        sheet_view(r@) == totals_sheet(entries@),
{
    let n = entries.len();
    let mut size: u64 = 0;
    let mut packed: u64 = 0;
    let mut i: usize = 0;
    while i < n
        invariant
            n == entries@.len(),
            i <= n,
            size_total(entries@) <= u64::MAX,
            packed_total(entries@) <= u64::MAX,
            size == size_total(entries@.take(i as int)),
            packed == packed_total(entries@.take(i as int)),
        decreases n - i,
    {
        proof {
            lemma_totals_grow(entries@, i + 1);
            assert(entries@.take(i + 1).drop_last() =~= entries@.take(i as int));
        }
        size = size + entries[i].size;
        packed = packed + entries[i].compressed_size;
        i = i + 1;
    }
    assert(entries@.take(n as int) =~= entries@);
    let mut rows: Vec<PropertyRow> = Vec::new();
    assert(rows_view(rows@) =~= Seq::<(Seq<char>, Seq<char>)>::empty());
    push_row(&mut rows, "Size", human_size(size));
    push_row(&mut rows, "Packed", human_size(packed));
    push_row(&mut rows, "Files", decimal(n as u64));
    assert(size == size_total(entries@) as u64);
    assert(packed == packed_total(entries@) as u64);
    assert(rows_view(rows@) =~= seq![
        ("Size"@, human_size_text(size_total(entries@))),
        ("Packed"@, human_size_text(packed_total(entries@))),
        ("Files"@, decimal_text(entries@.len())),
    ]);
    let mut sheet: Vec<PropertySection> = Vec::new();
    assert(sheet_view(sheet@) =~= Seq::<(Seq<char>, Seq<(Seq<char>, Seq<char>)>)>::empty());
    push_section(&mut sheet, "Totals", rows);
    assert(sheet_view(sheet@) =~= totals_sheet(entries@));
    sheet
}

/// The list of several entries: path, size and packed size of each.
pub fn entry_list_rows(entries: &[ArchiveEntry]) -> (r: Vec<(String, String, String)>)
    ensures
        r@.len() == entries@.len(),
        forall|i: int|
            0 <= i < r@.len() ==> #[trigger] r@[i].0@ == entries@[i].path@ && r@[i].1@ == human_size_text(
                entries@[i].size as nat,
            ) && r@[i].2@ == human_size_text(entries@[i].compressed_size as nat),
{
    let mut r: Vec<(String, String, String)> = Vec::new();
    let n = entries.len();
    let mut i: usize = 0;
    while i < n
        invariant
            n == entries@.len(),
            i <= n,
            r@.len() == i,
            forall|j: int|
                0 <= j < i ==> #[trigger] r@[j].0@ == entries@[j].path@ && r@[j].1@ == human_size_text(
                    entries@[j].size as nat,
                ) && r@[j].2@ == human_size_text(entries@[j].compressed_size as nat),
        decreases n - i,
    {
        let e = &entries[i];
        r.push((e.path.clone(), human_size(e.size), human_size(e.compressed_size)));
        i = i + 1;
    }
    r
}

/// The title of the entries' properties dialog: "N Entries Properties" for
/// several, else "Entry Properties".
pub fn entries_dialog_title(n: usize) -> (r: String)
    ensures
        r@ == (if n > 1 {
            decimal_text(n as nat) + " Entries Properties"@
        } else {
            "Entry Properties"@
        }),
{
    if n > 1 {
        let mut r = decimal(n as u64);
        r.append(" Entries Properties");
        r
    } else {
        String::from_str("Entry Properties")
    }
}

/// "Entries (N)", the heading of the list of several entries.
pub fn entries_list_label(n: usize) -> (r: String)
    ensures
        r@ == "Entries ("@ + decimal_text(n as nat) + ")"@,
{
    let mut r = String::from_str("Entries (");
    let d = decimal(n as u64);
    r.append(d.as_str());
    r.append(")");
    r
}

} // verus!
