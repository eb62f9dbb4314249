use secrecy::ExposeSecret;
use secrecy::SecretBox;
use vstd::prelude::*;

verus! {

/// Supported archive formats.
#[derive(Debug, Clone, Copy, PartialEq, Eq, Structural)]
pub enum ArchiveFormat {
    SevenZip,
    Zip,
    Tar,
    TarGz,
    TarXz,
    TarBz2,
    Rar,
}

/// The file extension of a format, without the leading dot.
pub open spec fn format_extension(f: ArchiveFormat) -> Seq<char> {
    match f {
        ArchiveFormat::SevenZip => "7z"@,
        ArchiveFormat::Zip => "zip"@,
        ArchiveFormat::Tar => "tar"@,
        ArchiveFormat::TarGz => "tar.gz"@,
        ArchiveFormat::TarXz => "tar.xz"@,
        ArchiveFormat::TarBz2 => "tar.bz2"@,
        ArchiveFormat::Rar => "rar"@,
    }
}

/// The name of a format as shown to the user.
pub open spec fn format_display_name(f: ArchiveFormat) -> Seq<char> {
    match f {
        ArchiveFormat::SevenZip => "7z"@,
        ArchiveFormat::Zip => "Zip"@,
        ArchiveFormat::Tar => "Tar"@,
        ArchiveFormat::TarGz => "Tar.gz"@,
        ArchiveFormat::TarXz => "Tar.xz"@,
        ArchiveFormat::TarBz2 => "Tar.bz2"@,
        ArchiveFormat::Rar => "Rar"@,
    }
}

/// Formats whose archives can carry a password.
pub open spec fn format_supports_encryption(f: ArchiveFormat) -> bool {
    f == ArchiveFormat::SevenZip || f == ArchiveFormat::Zip
}

impl ArchiveFormat {
    pub fn extension(&self) -> (r: &'static str)
        ensures
            r@ == format_extension(*self),
    {
        match self {
            ArchiveFormat::SevenZip => "7z",
            ArchiveFormat::Zip => "zip",
            ArchiveFormat::Tar => "tar",
            ArchiveFormat::TarGz => "tar.gz",
            ArchiveFormat::TarXz => "tar.xz",
            ArchiveFormat::TarBz2 => "tar.bz2",
            ArchiveFormat::Rar => "rar",
        }
    }

    pub fn supports_encryption(&self) -> (r: bool)
        ensures
            r == format_supports_encryption(*self),
    {
        match self {
            ArchiveFormat::SevenZip | ArchiveFormat::Zip => true,
            _ => false,
        }
    }

    pub fn supports_encrypted_filenames(&self) -> (r: bool)
        ensures
            r == (*self == ArchiveFormat::SevenZip),
    {
        match self {
            ArchiveFormat::SevenZip => true,
            _ => false,
        }
    }

    pub fn is_writable(&self) -> (r: bool)
        ensures
            r == (*self != ArchiveFormat::Rar),
    {
        match self {
            ArchiveFormat::Rar => false,
            _ => true,
        }
    }

    pub fn supports_compression_level(&self) -> (r: bool)
        ensures
            r == (*self != ArchiveFormat::Tar),
    {
        match self {
            ArchiveFormat::Tar => false,
            _ => true,
        }
    }

    pub fn display_name(&self) -> (r: &'static str)
        ensures
            r@ == format_display_name(*self),
    {
        match self {
            ArchiveFormat::SevenZip => "7z",
            ArchiveFormat::Zip => "Zip",
            ArchiveFormat::Tar => "Tar",
            ArchiveFormat::TarGz => "Tar.gz",
            ArchiveFormat::TarXz => "Tar.xz",
            ArchiveFormat::TarBz2 => "Tar.bz2",
            ArchiveFormat::Rar => "Rar",
        }
    }
}

/// An entry (file or directory) inside a compressed archive.
/// Times are seconds since the Unix epoch (UTC).
#[derive(Debug, PartialEq)]
pub struct ArchiveEntry {
    pub name: String,
    pub path: String,
    pub size: u64,
    pub compressed_size: u64,
    pub is_directory: bool,
    pub is_encrypted: bool,
    pub is_symlink: bool,
    pub modified: Option<i64>,
    pub created: Option<i64>,
    pub accessed: Option<i64>,
    pub crc: Option<u32>,
    pub attributes: Option<u32>,
    pub posix_attrib: Option<u32>,
    pub host_os: Option<u8>,
    pub compression_method: Option<String>,
    pub comment: Option<String>,
    pub user: Option<String>,
    pub group: Option<String>,
    pub extension: Option<String>,
    pub hardlink: Option<String>,
    /// Original index in the archive (for preview/extraction).
    pub original_index: u32,
}

/// A copy of an optional string.
fn clone_opt(s: &Option<String>) -> (r: Option<String>)
    ensures
        r == *s,
{
    match s {
        Some(t) => Some(t.clone()),
        None => None,
    }
}

impl Clone for ArchiveEntry {
    fn clone(&self) -> (r: Self)
        ensures
            r == *self,
    {
        ArchiveEntry {
            name: self.name.clone(),
            path: self.path.clone(),
            size: self.size,
            compressed_size: self.compressed_size,
            is_directory: self.is_directory,
            is_encrypted: self.is_encrypted,
            is_symlink: self.is_symlink,
            modified: self.modified,
            created: self.created,
            accessed: self.accessed,
            crc: self.crc,
            attributes: self.attributes,
            posix_attrib: self.posix_attrib,
            host_os: self.host_os,
            compression_method: clone_opt(&self.compression_method),
            comment: clone_opt(&self.comment),
            user: clone_opt(&self.user),
            group: clone_opt(&self.group),
            extension: clone_opt(&self.extension),
            hardlink: clone_opt(&self.hardlink),
            original_index: self.original_index,
        }
    }
}

impl Default for ArchiveEntry {
    fn default() -> (r: Self)
        ensures
            r.name@.len() == 0,
            r.path@.len() == 0,
            r.size == 0,
            r.compressed_size == 0,
            !r.is_directory,
            !r.is_encrypted,
            !r.is_symlink,
            r.modified is None,
            r.created is None,
            r.accessed is None,
            r.crc is None,
            r.attributes is None,
            r.posix_attrib is None,
            r.host_os is None,
            r.compression_method is None,
            r.comment is None,
            r.user is None,
            r.group is None,
            r.extension is None,
            r.hardlink is None,
            r.original_index == 0,
    {
        ArchiveEntry {
            name: String::new(),
            path: String::new(),
            size: 0,
            compressed_size: 0,
            is_directory: false,
            is_encrypted: false,
            is_symlink: false,
            modified: None,
            created: None,
            accessed: None,
            crc: None,
            attributes: None,
            posix_attrib: None,
            host_os: None,
            compression_method: None,
            comment: None,
            user: None,
            group: None,
            extension: None,
            hardlink: None,
            original_index: 0,
        }
    }
}

/// The source of archive handle ids: each id it gives out is one more than
/// the previous one, starting from 1 (wrapping at the top of `u64`).
pub struct ArchiveIds {
    next: u64,
}

/// The successor of an id, wrapping at the top of `u64`.
pub open spec fn id_after(id: u64) -> u64 {
    if id == u64::MAX {
        0
    } else {
        (id + 1) as u64
    }
}

impl ArchiveIds {
    /// The id that the next call of `next_archive_id` gives out.
    pub closed spec fn upcoming(self) -> u64 {
        self.next
    }

    pub fn new() -> (r: Self)
        ensures
            r.upcoming() == 1,
    {
        ArchiveIds { next: 1 }
    }
}

/// Takes the next archive id.
pub fn next_archive_id(ids: &mut ArchiveIds) -> (id: u64)
    ensures
        id == old(ids).upcoming(),
        final(ids).upcoming() == id_after(old(ids).upcoming()),
{
    let id = ids.next;
    ids.next = ids.next.wrapping_add(1);
    id
}

/// Opaque handle to an opened archive: an id that the repository tracks, and
/// metadata about the archive.
#[derive(Debug, Clone)]
pub struct ArchiveHandle {
    id: u64,
    is_writer: bool,
    path: Option<String>,
    format: Option<ArchiveFormat>,
    is_header_encrypted: bool,
    has_encrypted_items: bool,
}

/// The mathematical model of an archive handle.
pub struct HandleModel {
    pub id: u64,
    pub is_writer: bool,
    pub path: Option<Seq<char>>,
    pub format: Option<ArchiveFormat>,
    pub is_header_encrypted: bool,
    pub has_encrypted_items: bool,
}

/// The model of an optional string.
pub open spec fn opt_view(s: Option<String>) -> Option<Seq<char>> {
    match s {
        Some(t) => Some(t@),
        None => None,
    }
}

impl View for ArchiveHandle {
    type V = HandleModel;

    closed spec fn view(&self) -> HandleModel {
        HandleModel {
            id: self.id,
            is_writer: self.is_writer,
            path: opt_view(self.path),
            format: self.format,
            is_header_encrypted: self.is_header_encrypted,
            has_encrypted_items: self.has_encrypted_items,
        }
    }
}

impl ArchiveHandle {
    /// A handle for reading, with the next id, no path, no format and no
    /// encryption.
    pub fn new_reader(ids: &mut ArchiveIds) -> (r: Self)
        ensures
            r@.id == old(ids).upcoming(),
            final(ids).upcoming() == id_after(old(ids).upcoming()),
            !r@.is_writer,
            r@.path is None,
            r@.format is None,
            !r@.is_header_encrypted,
            !r@.has_encrypted_items,
    {
        ArchiveHandle {
            id: next_archive_id(ids),
            is_writer: false,
            path: None,
            format: None,
            is_header_encrypted: false,
            has_encrypted_items: false,
        }
    }

    /// A handle for writing, with the next id, no path, no format and no
    /// encryption.
    pub fn new_writer(ids: &mut ArchiveIds) -> (r: Self)
        ensures
            r@.id == old(ids).upcoming(),
            final(ids).upcoming() == id_after(old(ids).upcoming()),
            r@.is_writer,
            r@.path is None,
            r@.format is None,
            !r@.is_header_encrypted,
            !r@.has_encrypted_items,
    {
        ArchiveHandle {
            id: next_archive_id(ids),
            is_writer: true,
            path: None,
            format: None,
            is_header_encrypted: false,
            has_encrypted_items: false,
        }
    }

    pub fn with_path(self, path: String) -> (r: Self)
        ensures
            r@ == (HandleModel { path: Some(path@), ..self@ }),
    {
        let mut h = self;
        h.path = Some(path);
        h
    }

    pub fn with_format(self, format: ArchiveFormat) -> (r: Self)
        ensures
            r@ == (HandleModel { format: Some(format), ..self@ }),
    {
        let mut h = self;
        h.format = Some(format);
        h
    }

    pub fn with_format_opt(self, format: Option<ArchiveFormat>) -> (r: Self)
        ensures
            r@ == (HandleModel { format: format, ..self@ }),
    {
        let mut h = self;
        h.format = format;
        h
    }

    pub fn id(&self) -> (r: u64)
        ensures
            r == self@.id,
    {
        self.id
    }

    pub fn is_writer(&self) -> (r: bool)
        ensures
            r == self@.is_writer,
    {
        self.is_writer
    }

    pub fn path(&self) -> (r: Option<&String>)
        ensures
            match r {
                Some(p) => self@.path == Some(p@),
                None => self@.path is None,
            },
    {
        match &self.path {
            Some(p) => Some(p),
            None => None,
        }
    }

    pub fn format(&self) -> (r: Option<ArchiveFormat>)
        ensures
            r == self@.format,
    {
        self.format
    }

    pub fn is_header_encrypted(&self) -> (r: bool)
        ensures
            r == self@.is_header_encrypted,
    {
        self.is_header_encrypted
    }

    pub fn has_encrypted_items(&self) -> (r: bool)
        ensures
            r == self@.has_encrypted_items,
    {
        self.has_encrypted_items
    }

    pub fn set_encryption_info(&mut self, is_header_encrypted: bool, has_encrypted_items: bool)
        ensures
            final(self)@ == (HandleModel {
                is_header_encrypted: is_header_encrypted,
                has_encrypted_items: has_encrypted_items,
                ..old(self)@
            }),
    {
        self.is_header_encrypted = is_header_encrypted;
        self.has_encrypted_items = has_encrypted_items;
    }
}

/// Paginated result for large archives.
#[derive(Debug, Clone)]
pub struct Page<T> {
    pub items: Vec<T>,
    pub offset: usize,
    pub total: Option<usize>,
}

impl<T> Page<T> {
    pub fn new(items: Vec<T>, offset: usize, total: Option<usize>) -> (r: Self)
        ensures
            r.items == items,
            r.offset == offset,
            r.total == total,
    {
        Page { items, offset, total }
    }
}

/// Encryption method.
#[derive(Debug, Clone, Copy, PartialEq, Eq, Structural)]
pub enum EncryptionMethod {
    Aes256,
    ZipCrypto,
}

/// The encryption methods that a format offers.
pub open spec fn methods_for(format: ArchiveFormat) -> Seq<EncryptionMethod> {
    match format {
        ArchiveFormat::SevenZip => seq![EncryptionMethod::Aes256],
        ArchiveFormat::Zip => seq![EncryptionMethod::ZipCrypto],
        _ => Seq::empty(),
    }
}

impl EncryptionMethod {
    pub fn display_name(&self) -> (r: &'static str)
        ensures
            r@ == (match *self {
                EncryptionMethod::Aes256 => "AES-256"@,
                EncryptionMethod::ZipCrypto => "ZipCrypto"@,
            }),
    {
        match self {
            EncryptionMethod::Aes256 => "AES-256",
            EncryptionMethod::ZipCrypto => "ZipCrypto",
        }
    }

    pub fn available_for(format: ArchiveFormat) -> (r: Vec<Self>)
        ensures
            r@ == methods_for(format),
    {
        match format {
            ArchiveFormat::SevenZip => vec![EncryptionMethod::Aes256],
            ArchiveFormat::Zip => vec![EncryptionMethod::ZipCrypto],
            _ => Vec::new(),
        }
    }
}

/// A secret string of the secrecy crate (`SecretString`, which is
/// `SecretBox<str>`), held whole: its content is zeroized on drop and
/// redacted in debug output. `SecretBox` cannot be declared to Verus (its
/// parameter is bounded by zeroize's `Zeroize` trait), so the box is kept in
/// a field that Verus does not see, and `secret_text` names the text it
/// holds.
#[verifier::external_body]
#[derive(Debug)]
pub struct SecretText {
    inner: SecretBox<str>,
}

/// The text that a secret string holds.
pub uninterp spec fn secret_text(s: SecretText) -> Seq<char>;

/// Calls `SecretString::from(String)` (secrecy): the secret box then holds
/// exactly the given text.
#[verifier::external_body]
fn secret_from_string(s: String) -> (r: SecretText)
    ensures
        secret_text(r) == s@,
{
    SecretText { inner: SecretBox::from(s) }
}

/// Calls `ExposeSecret::expose_secret` (secrecy) on a secret string: it gives
/// back a reference to the held text.
#[verifier::external_body]
fn expose_secret_text(s: &SecretText) -> (r: &str)
    ensures
        r@ == secret_text(*s),
{
    s.inner.expose_secret()
}

impl Clone for SecretText {
    /// Calls `Clone::clone` of `SecretString` (secrecy), which copies the
    /// held text into a new box.
    #[verifier::external_body]
    fn clone(&self) -> (r: Self)
        ensures
            secret_text(r) == secret_text(*self),
    {
        SecretText { inner: self.inner.clone() }
    }
}

/// A password that is zeroized on drop and redacted in debug output.
#[derive(Clone, Debug)]
pub struct Password(SecretText);

impl View for Password {
    type V = Seq<char>;

    closed spec fn view(&self) -> Seq<char> {
        secret_text(self.0)
    }
}

impl Password {
    pub fn new(password: String) -> (r: Self)
        ensures
            r@ == password@,
    {
        Password(secret_from_string(password))
    }

    pub fn as_str(&self) -> (r: &str)
        ensures
            r@ == self@,
    {
        expose_secret_text(&self.0)
    }

    pub fn is_empty(&self) -> (r: bool)
        ensures
            r == (self@.len() == 0),
    {
        self.as_str().is_empty()
    }
}

/// Configuration for creating encrypted archives.
#[derive(Debug, Clone)]
pub struct EncryptionConfig {
    pub password: Password,
    pub method: EncryptionMethod,
    pub encrypt_filenames: bool,
}

/// Overwrite mode for extraction.
#[derive(Debug, Clone, Copy, PartialEq, Eq, Structural)]
pub enum OverwriteMode {
    Ask,
    Overwrite,
    Skip,
    RenameExtracted,
}

/// The position of a mode in the list of all modes.
pub open spec fn overwrite_mode_index(m: OverwriteMode) -> i32 {
    match m {
        OverwriteMode::Ask => 0,
        OverwriteMode::Overwrite => 1,
        OverwriteMode::Skip => 2,
        OverwriteMode::RenameExtracted => 3,
    }
}

/// All overwrite modes, in the order in which they are offered.
pub open spec fn all_overwrite_modes() -> Seq<OverwriteMode> {
    seq![
        OverwriteMode::Ask,
        OverwriteMode::Overwrite,
        OverwriteMode::Skip,
        OverwriteMode::RenameExtracted,
    ]
}

impl OverwriteMode {
    pub fn label(&self) -> (r: &'static str)
        ensures
            r@ == (match *self {
                OverwriteMode::Ask => "Ask"@,
                OverwriteMode::Overwrite => "Overwrite"@,
                OverwriteMode::Skip => "Skip"@,
                OverwriteMode::RenameExtracted => "Rename extracted"@,
            }),
    {
        match self {
            OverwriteMode::Ask => "Ask",
            OverwriteMode::Overwrite => "Overwrite",
            OverwriteMode::Skip => "Skip",
            OverwriteMode::RenameExtracted => "Rename extracted",
        }
    }

    pub fn all() -> (r: Vec<OverwriteMode>)
        ensures
            r@ == all_overwrite_modes(),
    {
        let r = vec![
            OverwriteMode::Ask,
            OverwriteMode::Overwrite,
            OverwriteMode::Skip,
            OverwriteMode::RenameExtracted,
        ];
        assert(r@ =~= all_overwrite_modes());
        r
    }

    pub fn index(&self) -> (r: &'static i32)
        ensures
            *r == overwrite_mode_index(*self),
    {
        match self {
            OverwriteMode::Ask => &0,
            OverwriteMode::Overwrite => &1,
            OverwriteMode::Skip => &2,
            OverwriteMode::RenameExtracted => &3,
        }
    }
}

/// Result of an archive integrity test.
#[derive(Debug, Clone)]
pub struct TestResult {
    pub total: usize,
    pub passed: usize,
    pub failed: Vec<TestFailure>,
}

#[derive(Debug, Clone)]
pub struct TestFailure {
    pub entry_path: String,
    pub error: String,
    pub index: usize,
    pub path: String,
    pub reason: TestFailureReason,
}

#[derive(Debug, Clone)]
pub enum TestFailureReason {
    CrcMismatch { expected: u32, actual: u32 },
    ReadError(String),
    UnsupportedOperation,
}

/// Output file info for creation.
#[derive(Debug, Clone)]
pub struct CreateFileItem {
    pub path: String,
    pub is_directory: bool,
    pub size: Option<u64>,
}

/// `part` occurs in `whole` as a contiguous run.
pub open spec fn occurs_in(part: Seq<char>, whole: Seq<char>) -> bool {
    exists|k: int| 0 <= k && k + part.len() <= whole.len() && #[trigger] whole.subrange(k, k + part.len()) == part
}

/// A possible final component of a path: a nonempty run of the path's text.
pub open spec fn is_component_of(name: Seq<char>, path: Seq<char>) -> bool {
    &&& name.len() > 0
    &&& occurs_in(name, path)
}

/// A path that every platform reads the same way: it holds no '\\' and no
/// ':' and does not start with "//", so it has no drive, share or verbatim
/// prefix, and its components are its '/'-separated parts.
pub open spec fn plain_path(p: Seq<char>) -> bool {
    &&& !p.contains('\\')
    &&& !p.contains(':')
    &&& !(p.len() >= 2 && p[0] == '/' && p[1] == '/')
}

/// The position of the last `c` in `s` (-1 where there is none).
pub open spec fn last_index_of(s: Seq<char>, c: char) -> int
    decreases s.len(),
{
    if s.len() == 0 {
        -1
    } else if s.last() == c {
        s.len() - 1
    } else {
        last_index_of(s.drop_last(), c)
    }
}

/// Where the last occurrence of a character can be.
pub proof fn lemma_last_index_bounds(s: Seq<char>, c: char)
    ensures
        -1 <= last_index_of(s, c) < s.len(),
        last_index_of(s, c) >= 0 ==> s[last_index_of(s, c)] == c,
        forall|i: int| last_index_of(s, c) < i < s.len() ==> s[i] != c,
    decreases s.len(),
{
    if s.len() > 0 && s.last() != c {
        lemma_last_index_bounds(s.drop_last(), c);
        assert forall|i: int| last_index_of(s, c) < i < s.len() implies s[i] != c by {
            if i < s.len() - 1 {
                assert(s.drop_last()[i] == s[i]);
            }
        }
    }
}

/// The last component of a path read with '/' as separator: its last part
/// that is neither empty nor "." (empty parts come from repeated or trailing
/// separators, "." parts are normalized away); `None` where it has none.
pub open spec fn last_component(p: Seq<char>) -> Option<Seq<char>>
    decreases p.len(),
{
    let k = last_index_of(p, '/');
    let part = p.subrange(k + 1, p.len() as int);
    if part.len() > 0 && part != seq!['.'] {
        Some(part)
    } else if k < 0 {
        None
    } else {
        proof {
            lemma_last_index_bounds(p, '/');
        }
        last_component(p.subrange(0, k))
    }
}

/// The '/'-separated parts of a path, empty ones included.
pub open spec fn path_parts(p: Seq<char>) -> Seq<Seq<char>>
    decreases p.len(),
{
    let k = last_index_of(p, '/');
    if k < 0 {
        seq![p]
    } else {
        proof {
            lemma_last_index_bounds(p, '/');
        }
        path_parts(p.subrange(0, k)).push(p.subrange(k + 1, p.len() as int))
    }
}

/// The components of a plain path, as `Path::components` documents them:
/// the root ("/") where it starts with '/', a leading "." where it starts
/// with one, then its parts that are neither empty nor "." (repeated and
/// trailing separators and inner "." are normalized away).
pub open spec fn path_components(p: Seq<char>) -> Seq<Seq<char>> {
    let parts = path_parts(p);
    let head: Seq<Seq<char>> = if p.len() > 0 && p[0] == '/' {
        seq![seq!['/']]
    } else if parts[0] == seq!['.'] {
        seq![seq!['.']]
    } else {
        Seq::empty()
    };
    head + parts.filter(|x: Seq<char>| x.len() > 0 && x != seq!['.'])
}

/// What `Path::file_name` documents for a plain path: its last component,
/// unless that is "..".
pub open spec fn file_name_of(p: Seq<char>) -> Option<Seq<char>> {
    match last_component(p) {
        Some(c) => if c == seq!['.', '.'] {
            None
        } else {
            Some(c)
        },
        None => None,
    }
}

/// The stem of a file name: the part before its last '.', or the whole name
/// where it has no '.' other than a leading one.
pub open spec fn stem_of_name(n: Seq<char>) -> Seq<char> {
    let d = last_index_of(n, '.');
    if d <= 0 {
        n
    } else {
        n.subrange(0, d)
    }
}

/// The extension of a file name: the part after its last '.', where it has
/// a '.' other than a leading one.
pub open spec fn extension_of_name(n: Seq<char>) -> Option<Seq<char>> {
    let d = last_index_of(n, '.');
    if d <= 0 {
        None
    } else {
        Some(n.subrange(d + 1, n.len() as int))
    }
}

/// What `Path::file_stem` documents for a plain path.
pub open spec fn file_stem_of(p: Seq<char>) -> Option<Seq<char>> {
    match file_name_of(p) {
        Some(n) => Some(stem_of_name(n)),
        None => None,
    }
}

/// What `Path::extension` documents for a plain path.
pub open spec fn extension_of(p: Seq<char>) -> Option<Seq<char>> {
    match file_name_of(p) {
        Some(n) => extension_of_name(n),
        None => None,
    }
}

/// Calls `std::path::Path::file_name` on a path given as text. The final
/// component, where there is one, is a nonempty run of the path's own text;
/// for a plain path it is the one that `file_name_of` names, as the
/// documentation of `file_name` and of `Path::components` give it. Of other
/// paths, whose reading depends on the platform (a verbatim Windows path
/// splits only at '\\', so its file name may hold a '/'), no clause says
/// which run it is.
#[verifier::external_body]
fn path_file_name(path: &str) -> (r: Option<String>)
    ensures
        r matches Some(n) ==> is_component_of(n@, path@),
        plain_path(path@) ==> opt_view(r) == file_name_of(path@),
{
    std::path::Path::new(path).file_name().map(|n| n.to_string_lossy().to_string())
}

impl CreateFileItem {
    /// The final component of the path, or the whole path where it has none.
    pub fn display_name(&self) -> (r: String)
        ensures
            r@ == self.path@ || is_component_of(r@, self.path@),
            plain_path(self.path@) ==> r@ == (match file_name_of(self.path@) {
                Some(n) => n,
                None => self.path@,
            }),
    {
        match path_file_name(self.path.as_str()) {
            Some(n) => n,
            None => self.path.clone(),
        }
    }
}

} // verus!
