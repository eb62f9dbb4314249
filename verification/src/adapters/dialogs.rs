//! The forms of the create, add and extract dialogs: what they hold, when
//! they may be submitted, and what they submit.
use crate::adapters::archive_vm::count_text;
use crate::adapters::bit7z::FilterPolicy;
use crate::adapters::views::{default_destination, path_file_stem};
use crate::domain::archive::{
    file_stem_of, format_extension, occurs_in, plain_path, ArchiveFormat, ArchiveHandle, CreateFileItem, EncryptionConfig, EncryptionMethod, OverwriteMode,
    Password,
};
use crate::application::add_to::AddToArchiveUseCase;
use crate::domain::preferences::ArchivePrefs;
use crate::domain::repository::{add_outcome, create_outcome, ArchiveError, ArchiveRepository};
use crate::text::decimal;
use vstd::prelude::*;
use vstd::string::*;

verus! {

broadcast use vstd::string::group_string_axioms;

/// The encryption that a form asks for: none without a password, else
/// AES-256 with the password, the names encrypted where asked and the
/// format can (7z).
pub fn encryption_for(password: &String, encrypt_filenames: bool, format: ArchiveFormat) -> (r: Option<
    EncryptionConfig,
>)
    ensures
        password@.len() == 0 <==> r is None,
        r matches Some(c) ==> {
            &&& c.password@ == password@
            &&& c.method == EncryptionMethod::Aes256
            &&& c.encrypt_filenames == (encrypt_filenames && format == ArchiveFormat::SevenZip)
        },
{
    if password.as_str().is_empty() {
        return None;
    }
    Some(
        EncryptionConfig {
            password: Password::new(password.clone()),
            method: EncryptionMethod::Aes256,
            encrypt_filenames: encrypt_filenames && format.supports_encrypted_filenames(),
        },
    )
}

/// "N <one>" for one, "N <many>" otherwise, followed by " selected".
pub open spec fn selected_text(n: nat, one: Seq<char>, many: Seq<char>) -> Seq<char> {
    count_text(""@, n, " "@ + (if n == 1 { one } else { many }) + " selected"@)
}

fn selected_message(n: usize, one: &str, many: &str) -> (r: String)
    ensures
        r@ == selected_text(n as nat, one@, many@),
{
    let mut r = decimal(n as u64);
    r.append(" ");
    if n == 1 {
        r.append(one);
    } else {
        r.append(many);
    }
    r.append(" selected");
    proof {
        reveal_strlit("");
    }
    assert(r@ =~= selected_text(n as nat, one@, many@));
    r
}

// ---------------------------------------------------------------------------
// Create
// ---------------------------------------------------------------------------

/// The create dialog: the files to pack and how.
pub struct CreateForm {
    pub files: Vec<CreateFileItem>,
    pub format: ArchiveFormat,
    pub compression_level: u8,
    pub password: String,
    pub password_confirm: String,
    pub encrypt_filenames: bool,
    pub destination: String,
}

/// A password is acceptable when there is none, or it is confirmed and at
/// least four bytes long.
pub open spec fn password_ok(password: Seq<char>, confirm: Seq<char>) -> bool {
    password.len() == 0 || (password == confirm && vstd::utf8::encode_utf8(password).len() >= 4)
}

impl CreateForm {
    /// The form for `files`, with the format, level and name encryption of
    /// the preferences, no password, and the proposed archive name (see
    /// `default_destination`).
    pub fn new(files: Vec<CreateFileItem>, prefs: &ArchivePrefs) -> (r: Self)
        ensures
            r.files@ == files@,
            r.format == prefs.default_format,
            r.compression_level == prefs.default_compression_level,
            r.encrypt_filenames == prefs.default_encrypt_filenames,
            r.password@.len() == 0,
            r.password_confirm@.len() == 0,
            files@.len() != 1 ==> r.destination@ == "archive."@ + format_extension(prefs.default_format),
            files@.len() == 1 ==> exists|stem: Seq<char>|
                r.destination@ == stem + "."@ + format_extension(prefs.default_format) && (stem.len() == 0
                    || occurs_in(stem, files@[0].path@)),
            files@.len() == 1 && plain_path(files@[0].path@) ==> r.destination@ == (match file_stem_of(
                files@[0].path@,
            ) {
                Some(s) => s,
                None => Seq::<char>::empty(),
            }) + "."@ + format_extension(prefs.default_format),
    {
        let destination = default_destination(files.as_slice(), prefs.default_format);
        CreateForm {
            files,
            format: prefs.default_format,
            compression_level: prefs.default_compression_level,
            password: String::new(),
            password_confirm: String::new(),
            encrypt_filenames: prefs.default_encrypt_filenames,
            destination,
        }
    }

    /// The form can be submitted: there are files and a destination, and
    /// the password is acceptable (see `password_ok`).
    pub fn is_valid(&self) -> (r: bool)
        ensures
            r == (self.files@.len() > 0 && self.destination@.len() > 0 && password_ok(
                self.password@,
                self.password_confirm@,
            )),
    {
        if self.files.len() == 0 || self.destination.as_str().is_empty() {
            return false;
        }
        if self.password.as_str().is_empty() {
            return true;
        }
        self.password == self.password_confirm && self.password.as_str().as_bytes().len() >= 4
    }

    /// The encryption asked for (see `encryption_for`).
    pub fn encryption(&self) -> (r: Option<EncryptionConfig>)
        ensures
            self.password@.len() == 0 <==> r is None,
            r matches Some(c) ==> {
                &&& c.password@ == self.password@
                &&& c.method == EncryptionMethod::Aes256
                &&& c.encrypt_filenames == (self.encrypt_filenames && self.format == ArchiveFormat::SevenZip)
            },
    {
        encryption_for(&self.password, self.encrypt_filenames, self.format)
    }

    /// The label of the submit button.
    pub fn create_label(&self) -> (r: &'static str)
        ensures
            r@ == (if self.password@.len() == 0 {
                "Create"@
            } else {
                "Create Encrypted"@
            }),
    {
        if self.password.as_str().is_empty() {
            "Create"
        } else {
            "Create Encrypted"
        }
    }

    /// Chooses `format`; the destination keeps its stem and takes the
    /// format's extension (it is left as it is where it has no stem).
    pub fn select_format(&mut self, format: ArchiveFormat)
        ensures
            final(self).format == format,
            final(self).files == old(self).files,
            final(self).password == old(self).password,
            final(self).password_confirm == old(self).password_confirm,
            final(self).destination@ == old(self).destination@ || exists|stem: Seq<char>|
                final(self).destination@ == stem + "."@ + format_extension(format) && occurs_in(
                    stem,
                    old(self).destination@,
                ),
            plain_path(old(self).destination@) ==> final(self).destination@ == (match file_stem_of(
                old(self).destination@,
            ) {
                Some(stem) => stem + "."@ + format_extension(format),
                None => old(self).destination@,
            }),
    {
        self.format = format;
        match path_file_stem(self.destination.as_str()) {
            Some(stem) => {
                let ghost s = stem@;
                let mut d = stem;
                d.append(".");
                d.append(format.extension());
                assert(d@ == s + "."@ + format_extension(format));
                self.destination = d;
            },
            None => {},
        }
    }

    /// `enc` is the encryption that the form asks for (see `encryption`).
    pub open spec fn asks_for(&self, enc: Option<&EncryptionConfig>) -> bool {
        &&& (self.password@.len() == 0 <==> enc is None)
        &&& enc matches Some(c) ==> {
            &&& c.password@ == self.password@
            &&& c.method == EncryptionMethod::Aes256
            &&& c.encrypt_filenames == (self.encrypt_filenames && self.format == ArchiveFormat::SevenZip)
        }
    }

    /// The form's files go to a clone of the repository, to be added to the
    /// archive `h` just created (see `AddToArchiveUseCase::execute`): where
    /// every file exists (`present`), the clone is asked to add them, by their
    /// paths in order and without a password.
    pub open spec fn adds_files<R: ArchiveRepository + Clone>(
        &self,
        repo: &R,
        h: ArchiveHandle,
        present: Seq<bool>,
    ) -> bool {
        exists|c: R|
            cloned::<R>(*repo, c) && ((forall|j: int| 0 <= j < present.len() ==> present[j]) ==> exists|
                m: &mut ArchiveHandle,
                ps: &[String],
                res: Result<(), ArchiveError>,
            |
                *m == h && ps@.len() == self.files@.len() && (forall|j: int|
                    0 <= j < ps@.len() ==> #[trigger] ps@[j]@ == self.files@[j].path@) && add_outcome(
                    &c,
                    m,
                    ps,
                    None,
                    res,
                ))
    }

    /// Creates the archive through the repository and adds the form's
    /// files to it, where each exists (`present[i]` tells whether
    /// `files[i]` exists on disk). A failure to create is passed on; what
    /// the adding gives back is not waited for.
    pub fn submit<R: ArchiveRepository + Clone>(&self, repo: &R, present: &[bool]) -> (r: Result<
        (),
        ArchiveError,
    >)
        requires
            present@.len() == self.files@.len(),
        ensures
            r matches Err(e) ==> exists|dest: &str, enc: Option<&EncryptionConfig>|
                dest@ == self.destination@ && self.asks_for(enc) && create_outcome(
                    repo,
                    dest,
                    self.format,
                    enc,
                    Err(e),
                ),
            r is Ok ==> exists|dest: &str, enc: Option<&EncryptionConfig>, h: ArchiveHandle|
                dest@ == self.destination@ && self.asks_for(enc) && create_outcome(
                    repo,
                    dest,
                    self.format,
                    enc,
                    Ok(h),
                ) && (self.files@.len() > 0 ==> self.adds_files(repo, h, present@)),
    {
        let encryption = self.encryption();
        let dest = self.destination.as_str();
        let enc = encryption.as_ref();
        let created = repo.create(dest, self.format, enc);
        assert(create_outcome(repo, dest, self.format, enc, created));
        assert(self.asks_for(enc));
        let mut handle = match created {
            Ok(h) => h,
            Err(e) => return Err(e),
        };
        let ghost h0 = handle;
        if self.files.len() > 0 {
            let mut paths: Vec<String> = Vec::new();
            let n = self.files.len();
            let mut i: usize = 0;
            while i < n
                invariant
                    n == self.files@.len(),
                    i <= n,
                    paths@.len() == i,
                    forall|j: int| 0 <= j < i ==> #[trigger] paths@[j]@ == self.files@[j].path@,
                decreases n - i,
            {
                paths.push(self.files[i].path.clone());
                i = i + 1;
            }
            let ps = paths.as_slice();
            let c = repo.clone();
            assert(cloned::<R>(*repo, c));
            let uc = AddToArchiveUseCase::new(c);
            let _added = uc.execute(&mut handle, ps, present);
            assert(self.adds_files(repo, h0, present@));
        }
        Ok(())
    }
}

// ---------------------------------------------------------------------------
// Add files
// ---------------------------------------------------------------------------

/// The add dialog: the files to add to an archive and how.
pub struct AddFilesForm {
    pub files: Vec<String>,
    pub format: ArchiveFormat,
    pub compression_level: u8,
    pub password: String,
    pub password_confirm: String,
    pub encrypt_filenames: bool,
    pub filter_policy: FilterPolicy,
    pub recursive: bool,
    pub store_timestamps: bool,
    /// The files go into an archive that already exists.
    pub is_existing_archive: bool,
    /// That archive is solid.
    pub is_solid: bool,
}

impl AddFilesForm {
    /// The form for an archive of `format`, with the level and name
    /// encryption of the preferences, excluding by filter, recursive, with
    /// timestamps, and no files or password yet.
    pub fn new(format: ArchiveFormat, prefs: &ArchivePrefs, is_existing_archive: bool, is_solid: bool) -> (r: Self)
        ensures
            r.files@.len() == 0,
            r.format == format,
            r.compression_level == prefs.default_compression_level,
            r.encrypt_filenames == prefs.default_encrypt_filenames,
            r.password@.len() == 0,
            r.password_confirm@.len() == 0,
            r.filter_policy == FilterPolicy::Exclude,
            r.recursive,
            r.store_timestamps,
            r.is_existing_archive == is_existing_archive,
            r.is_solid == is_solid,
    {
        AddFilesForm {
            files: Vec::new(),
            format,
            compression_level: prefs.default_compression_level,
            password: String::new(),
            password_confirm: String::new(),
            encrypt_filenames: prefs.default_encrypt_filenames,
            filter_policy: FilterPolicy::Exclude,
            recursive: true,
            store_timestamps: true,
            is_existing_archive,
            is_solid,
        }
    }

    /// The form can be submitted: there are files, a password is confirmed,
    /// and the files do not go into an existing solid archive.
    pub fn is_valid(&self) -> (r: bool)
        ensures
            r == (self.files@.len() > 0 && (self.password@.len() == 0 || self.password@ == self.password_confirm@)
                && !(self.is_existing_archive && self.is_solid)),
    {
        if self.files.len() == 0 {
            return false;
        }
        if !self.password.as_str().is_empty() && !(self.password == self.password_confirm) {
            return false;
        }
        !(self.is_existing_archive && self.is_solid)
    }

    /// The encryption asked for (see `encryption_for`).
    pub fn encryption(&self) -> (r: Option<EncryptionConfig>)
        ensures
            self.password@.len() == 0 <==> r is None,
            r matches Some(c) ==> {
                &&& c.password@ == self.password@
                &&& c.method == EncryptionMethod::Aes256
                &&& c.encrypt_filenames == (self.encrypt_filenames && self.format == ArchiveFormat::SevenZip)
            },
    {
        encryption_for(&self.password, self.encrypt_filenames, self.format)
    }

    /// Switches between including and excluding what the filter matches.
    pub fn toggle_filter_policy(&mut self)
        ensures
            final(self).filter_policy == (match old(self).filter_policy {
                FilterPolicy::Include => FilterPolicy::Exclude,
                FilterPolicy::Exclude => FilterPolicy::Include,
            }),
            final(self).files == old(self).files,
    {
        self.filter_policy = match self.filter_policy {
            FilterPolicy::Include => FilterPolicy::Exclude,
            FilterPolicy::Exclude => FilterPolicy::Include,
        };
    }

    /// "1 file selected", "N files selected".
    pub fn selection_text(&self) -> (r: String)
        ensures
            r@ == selected_text(self.files@.len(), "file"@, "files"@),
    {
        selected_message(self.files.len(), "file", "files")
    }
}

// ---------------------------------------------------------------------------
// Extract
// ---------------------------------------------------------------------------

/// The extract dialog: where and how the chosen entries are extracted.
pub struct ExtractForm {
    pub entries_count: usize,
    pub destination: String,
    pub preserve_paths: bool,
    pub overwrite_mode: OverwriteMode,
    pub keep_broken: bool,
}

/// What the extract dialog asks for.
pub struct ExtractRequest {
    pub destination: String,
    pub preserve_paths: bool,
    pub overwrite_mode: OverwriteMode,
    pub keep_broken: bool,
}

impl ExtractForm {
    /// The form for `entries_count` entries: no destination yet, paths
    /// preserved, the user asked on conflicts, broken files dropped.
    pub fn new(entries_count: usize) -> (r: Self)
        ensures
            r.entries_count == entries_count,
            r.destination@.len() == 0,
            r.preserve_paths,
            r.overwrite_mode == OverwriteMode::Ask,
            !r.keep_broken,
    {
        ExtractForm {
            entries_count,
            destination: String::new(),
            preserve_paths: true,
            overwrite_mode: OverwriteMode::Ask,
            keep_broken: false,
        }
    }

    /// Extraction needs a destination.
    pub fn can_extract(&self) -> (r: bool)
        ensures
            r == (self.destination@.len() > 0),
    {
        !self.destination.as_str().is_empty()
    }

    /// "1 entry selected", "N entries selected".
    pub fn selection_text(&self) -> (r: String)
        ensures
            r@ == selected_text(self.entries_count as nat, "entry"@, "entries"@),
    {
        selected_message(self.entries_count, "entry", "entries")
    }

    /// What the form asks for, where it can be submitted.
    pub fn request(&self) -> (r: Option<ExtractRequest>)
        ensures
            r is Some <==> self.destination@.len() > 0,
            r matches Some(q) ==> {
                &&& q.destination@ == self.destination@
                &&& q.preserve_paths == self.preserve_paths
                &&& q.overwrite_mode == self.overwrite_mode
                &&& q.keep_broken == self.keep_broken
            },
    {
        if !self.can_extract() {
            return None;
        }
        Some(
            ExtractRequest {
                destination: self.destination.clone(),
                preserve_paths: self.preserve_paths,
                overwrite_mode: self.overwrite_mode,
                keep_broken: self.keep_broken,
            },
        )
    }
}

} // verus!
