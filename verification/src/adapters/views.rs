//! What the dialogs show: option lists, labels, and default names.
use crate::domain::archive::{
    file_stem_of, format_extension, occurs_in, opt_view, plain_path, ArchiveFormat, CreateFileItem,
};
use crate::text::{decimal, decimal_text};
use crate::domain::repository::ArchiveProperties;
use vstd::prelude::*;
use vstd::string::*;

verus! {

broadcast use vstd::string::group_string_axioms;

/// The name of a compression level; levels above 5 read as "Normal".
pub open spec fn level_name(level: u8) -> Seq<char> {
    if level == 0 {
        "None"@
    } else if level == 1 {
        "Fastest"@
    } else if level == 2 {
        "Fast"@
    } else if level == 3 {
        "Normal"@
    } else if level == 4 {
        "Maximum"@
    } else if level == 5 {
        "Ultra"@
    } else {
        "Normal"@
    }
}

pub fn compression_level_name(level: u8) -> (r: &'static str)
    ensures
        r@ == level_name(level),
{
    match level {
        0 => "None",
        1 => "Fastest",
        2 => "Fast",
        3 => "Normal",
        4 => "Maximum",
        5 => "Ultra",
        _ => "Normal",
    }
}

/// The formats that archives can be created in, in the order offered.
pub open spec fn writable_format_list() -> Seq<ArchiveFormat> {
    seq![
        ArchiveFormat::SevenZip,
        ArchiveFormat::Zip,
        ArchiveFormat::Tar,
        ArchiveFormat::TarGz,
        ArchiveFormat::TarBz2,
        ArchiveFormat::TarXz,
    ]
}

pub fn writable_formats() -> (r: Vec<ArchiveFormat>)
    ensures
        r@ == writable_format_list(),
{
    let r = vec![
        ArchiveFormat::SevenZip,
        ArchiveFormat::Zip,
        ArchiveFormat::Tar,
        ArchiveFormat::TarGz,
        ArchiveFormat::TarBz2,
        ArchiveFormat::TarXz,
    ];
    assert(r@ =~= writable_format_list());
    r
}

/// The upper-case label under which a format is offered.
pub open spec fn format_upper_label(f: ArchiveFormat) -> Seq<char> {
    match f {
        ArchiveFormat::SevenZip => "7Z"@,
        ArchiveFormat::Zip => "ZIP"@,
        ArchiveFormat::Tar => "TAR"@,
        ArchiveFormat::TarGz => "TAR.GZ"@,
        ArchiveFormat::TarBz2 => "TAR.BZ2"@,
        ArchiveFormat::TarXz => "TAR.XZ"@,
        ArchiveFormat::Rar => "RAR"@,
    }
}

pub fn format_label(f: ArchiveFormat) -> (r: &'static str)
    ensures
        r@ == format_upper_label(f),
{
    match f {
        ArchiveFormat::SevenZip => "7Z",
        ArchiveFormat::Zip => "ZIP",
        ArchiveFormat::Tar => "TAR",
        ArchiveFormat::TarGz => "TAR.GZ",
        ArchiveFormat::TarBz2 => "TAR.BZ2",
        ArchiveFormat::TarXz => "TAR.XZ",
        ArchiveFormat::Rar => "RAR",
    }
}

/// A format offered in a list, with its label.
#[derive(Debug, Clone)]
pub struct FormatItem {
    pub format: ArchiveFormat,
    pub label: String,
}

/// The writable formats with their upper-case labels, in the order offered.
pub fn writable_format_items() -> (r: Vec<FormatItem>)
    ensures
        r@.len() == writable_format_list().len(),
        forall|i: int|
            0 <= i < r@.len() ==> #[trigger] r@[i].format == writable_format_list()[i] && r@[i].label@
                == format_upper_label(writable_format_list()[i]),
{
    let formats = writable_formats();
    let mut r: Vec<FormatItem> = Vec::new();
    let n = formats.len();
    let mut i: usize = 0;
    while i < n
        invariant
            n == formats@.len(),
            formats@ == writable_format_list(),
            i <= n,
            r@.len() == i,
            forall|j: int|
                0 <= j < i ==> #[trigger] r@[j].format == formats@[j] && r@[j].label@ == format_upper_label(
                    formats@[j],
                ),
        decreases n - i,
    {
        let f = formats[i];
        r.push(FormatItem { format: f, label: String::from_str(format_label(f)) });
        i = i + 1;
    }
    r
}

/// The writable formats as (label, extension) pairs, in the order offered.
pub fn writable_format_options() -> (r: Vec<(String, String)>)
    ensures
        r@.len() == writable_format_list().len(),
        forall|i: int|
            0 <= i < r@.len() ==> (#[trigger] r@[i]).0@ == format_upper_label(writable_format_list()[i])
                && r@[i].1@ == format_extension(writable_format_list()[i]),
{
    let formats = writable_formats();
    let mut r: Vec<(String, String)> = Vec::new();
    let n = formats.len();
    let mut i: usize = 0;
    while i < n
        invariant
            n == formats@.len(),
            formats@ == writable_format_list(),
            i <= n,
            r@.len() == i,
            forall|j: int|
                0 <= j < i ==> (#[trigger] r@[j]).0@ == format_upper_label(formats@[j]) && r@[j].1@
                    == format_extension(formats@[j]),
        decreases n - i,
    {
        let f = formats[i];
        r.push((String::from_str(format_label(f)), String::from_str(f.extension())));
        i = i + 1;
    }
    r
}

/// A compression level offered in a list, with its name.
#[derive(Debug, Clone)]
pub struct LevelItem {
    pub level: u8,
    pub label: String,
}

/// The levels 0 to 5 with their names.
pub fn compression_levels() -> (r: Vec<LevelItem>)
    ensures
        r@.len() == 6,
        forall|i: int| 0 <= i < 6 ==> #[trigger] r@[i].level == i && r@[i].label@ == level_name(i as u8),
{
    let mut r: Vec<LevelItem> = Vec::new();
    let mut level: u8 = 0;
    while level < 6
        invariant
            level <= 6,
            r@.len() == level,
            forall|i: int| 0 <= i < level ==> #[trigger] r@[i].level == i && r@[i].label@ == level_name(i as u8),
        decreases 6 - level,
    {
        r.push(LevelItem { level, label: String::from_str(compression_level_name(level)) });
        level = level + 1;
    }
    r
}

/// "Yes" or "No".
pub fn bool_yn(v: bool) -> (r: &'static str)
    ensures
        r@ == (if v {
            "Yes"@
        } else {
            "No"@
        }),
{
    if v {
        "Yes"
    } else {
        "No"
    }
}

/// The kind of an archive as the properties dialog names it.
pub open spec fn type_label(is_solid: bool, is_multi_volume: bool) -> Seq<char> {
    if is_solid && is_multi_volume {
        "Solid Multi-volume"@
    } else if is_solid {
        "Solid"@
    } else if is_multi_volume {
        "Multi-volume"@
    } else {
        "Archive"@
    }
}

pub fn props_type_label(props: &ArchiveProperties) -> (r: String)
    ensures
        r@ == type_label(props.is_solid, props.is_multi_volume),
{
    proof {
        reveal_strlit("Solid");
        reveal_strlit(" ");
        reveal_strlit("Multi-volume");
        reveal_strlit("Solid Multi-volume");
    }
    if props.is_solid && props.is_multi_volume {
        let mut r = String::from_str("Solid");
        r.append(" ");
        r.append("Multi-volume");
        assert(r@ =~= "Solid Multi-volume"@);
        r
    } else if props.is_solid {
        String::from_str("Solid")
    } else if props.is_multi_volume {
        String::from_str("Multi-volume")
    } else {
        String::from_str("Archive")
    }
}

/// Calls `std::path::Path::file_stem` on a path given as text. A stem,
/// where there is one, is a run of the path's own text; for a plain path it
/// is the one that `file_stem_of` names, as the documentation of `file_stem`
/// gives it. Of other paths, whose reading depends on the platform (a
/// verbatim Windows path splits only at '\\'), no clause says which run it
/// is.
#[verifier::external_body]
pub(crate) fn path_file_stem(path: &str) -> (r: Option<String>)
    ensures
        r matches Some(s) ==> occurs_in(s@, path@),
        plain_path(path@) ==> opt_view(r) == file_stem_of(path@),
{
    std::path::Path::new(path).file_stem().map(|s| s.to_string_lossy().to_string())
}

/// The archive name that the create dialog proposes: for a single file its
/// stem (empty where it has none) with the format's extension, else
/// "archive" with the format's extension.
pub fn default_destination(files: &[CreateFileItem], format: ArchiveFormat) -> (r: String)
    ensures
        files@.len() != 1 ==> r@ == "archive."@ + format_extension(format),
        files@.len() == 1 ==> exists|stem: Seq<char>|
            r@ == stem + "."@ + format_extension(format) && (stem.len() == 0 || occurs_in(stem, files@[0].path@)),
        files@.len() == 1 && plain_path(files@[0].path@) ==> r@ == (match file_stem_of(files@[0].path@) {
            Some(s) => s,
            None => Seq::<char>::empty(),
        }) + "."@ + format_extension(format),
{
    if files.len() == 1 {
        let mut r = match path_file_stem(files[0].path.as_str()) {
            Some(s) => s,
            None => String::new(),
        };
        let ghost stem = r@;
        r.append(".");
        r.append(format.extension());
        assert(r@ == stem + "."@ + format_extension(format));
        r
    } else {
        let mut r = String::from_str("archive.");
        r.append(format.extension());
        r
    }
}

/// "N - NAME", a compression level as the settings list it.
pub fn level_choice_label(level: u8) -> (r: String)
    ensures
        r@ == decimal_text(level as nat) + " - "@ + level_name(level),
{
    let mut r = decimal(level as u64);
    r.append(" - ");
    r.append(compression_level_name(level));
    r
}

/// How many recent files the settings show.
pub const RECENT_SHOWN: usize = 5;

/// The recent files that the settings show: the first `RECENT_SHOWN`.
pub fn recent_files_shown(recent: &[String]) -> (r: Vec<String>)
    ensures
        r@.len() == (if recent@.len() < RECENT_SHOWN {
            recent@.len()
        } else {
            RECENT_SHOWN as nat
        }),
        forall|i: int| 0 <= i < r@.len() ==> #[trigger] r@[i]@ == recent@[i]@,
{
    let mut r: Vec<String> = Vec::new();
    let n = if recent.len() < RECENT_SHOWN {
        recent.len()
    } else {
        RECENT_SHOWN
    };
    let mut i: usize = 0;
    while i < n
        invariant
            n <= recent@.len(),
            i <= n,
            r@.len() == i,
            forall|j: int| 0 <= j < i ==> #[trigger] r@[j]@ == recent@[j]@,
        decreases n - i,
    {
        r.push(recent[i].clone());
        i = i + 1;
    }
    r
}

} // verus!
