use crate::domain::archive::{ArchiveEntry, ArchiveHandle, Page};
use crate::domain::repository::{extract_outcome, list_page_outcome, ArchiveError, ArchiveRepository};
use crate::application::test::index_label;
use crate::text::decimal_text;
use vstd::prelude::*;

verus! {

/// Whether the first item of a one-entry listing for `index` can be opened:
/// an empty listing means the entry does not exist, and a directory cannot
/// be opened.
pub fn check_openable(items: &[ArchiveEntry], index: u32) -> (r: Result<(), ArchiveError>)
    ensures
        items@.len() == 0 ==> (r matches Err(ArchiveError::NotFound(m)) && m@ == "index "@
            + decimal_text(index as nat)),
        items@.len() > 0 && items@[0].is_directory ==> (r matches Err(ArchiveError::Internal(m)) && m@
            == "Cannot open a directory entry"@),
        items@.len() > 0 && !items@[0].is_directory ==> r is Ok,
{
    if items.len() == 0 {
        return Err(ArchiveError::NotFound(index_label(index)));
    }
    if items[0].is_directory {
        return Err(ArchiveError::Internal(String::from_str("Cannot open a directory entry")));
    }
    Ok(())
}

/// The path of `name` placed in directory `dir`, as `PathBuf::push` joins
/// them with the platform's separator (`name` replaces `dir` where it is
/// absolute).
pub uninterp spec fn joined_path(dir: Seq<char>, name: Seq<char>) -> Seq<char>;

/// Calls `PathBuf::push` to place `name` in directory `dir` with the
/// platform's path syntax.
#[verifier::external_body]
fn path_join(dir: &str, name: &str) -> (r: String)
    ensures
        r@ == joined_path(dir@, name@),
{
    let mut p = std::path::PathBuf::from(dir);
    p.push(name);
    p.to_string_lossy().to_string()
}

/// An outcome of opening entry `index`: the one-entry listing of `index` is
/// had and shows a file, and the repository extracted that file to the path
/// given back, which is the entry's name placed in `temp_dir`; or the
/// listing fails, or shows no entry (not found), or shows a directory, or
/// the extraction to that path fails, with that error.
pub open spec fn open_entry_outcome<R: ArchiveRepository>(
    repo: &R,
    archive: &ArchiveHandle,
    index: u32,
    temp_dir: Seq<char>,
    r: Result<String, ArchiveError>,
) -> bool {
    match r {
        Ok(p) => exists|page: Page<ArchiveEntry>, ix: &[u32], dest: &str|
            list_page_outcome(repo, archive, index as usize, 1, Ok(page)) && page.items@.len() > 0
                && !page.items@[0].is_directory && p@ == joined_path(temp_dir, page.items@[0].name@)
                && ix@ == seq![index] && dest@ == p@ && extract_outcome(
                repo,
                archive,
                ix,
                dest,
                Ok(()),
            ),
        Err(e) => list_page_outcome(repo, archive, index as usize, 1, Err(e)) || exists|page: Page<ArchiveEntry>|
            list_page_outcome(repo, archive, index as usize, 1, Ok(page)) && {
                ||| page.items@.len() == 0 && (e matches ArchiveError::NotFound(m) && m@ == "index "@
                    + decimal_text(index as nat))
                ||| page.items@.len() > 0 && page.items@[0].is_directory && (e matches ArchiveError::Internal(
                    m,
                ) && m@ == "Cannot open a directory entry"@)
                ||| page.items@.len() > 0 && !page.items@[0].is_directory && exists|ix: &[u32], dest: &str|
                    ix@ == seq![index] && dest@ == joined_path(temp_dir, page.items@[0].name@)
                        && extract_outcome(repo, archive, ix, dest, Err(e))
            },
    }
}

/// Extracts single entries to a temporary directory so that the system can
/// open them.
pub struct OpenEntryUseCase<R> {
    repo: R,
}

impl<R: ArchiveRepository> OpenEntryUseCase<R> {
    /// The repository that the use case works through.
    pub closed spec fn repository(&self) -> R {
        self.repo
    }

    pub fn new(repo: R) -> (r: Self)
        ensures
            r.repository() == repo,
    {
        OpenEntryUseCase { repo }
    }

    /// Extracts the non-directory entry `index` into `temp_dir` and gives
    /// back the path of the extracted file, which the caller opens with the
    /// system's default handler.
    pub fn execute(&self, archive: &ArchiveHandle, index: u32, temp_dir: &str) -> (r: Result<String, ArchiveError>)
        ensures
            open_entry_outcome(&self.repository(), archive, index, temp_dir@, r),
    {
        let listed = self.repo.list_page(archive, index as usize, 1);
        assert(list_page_outcome(&self.repository(), archive, index as usize, 1, listed));
        let page = match listed {
            Ok(p) => p,
            Err(e) => return Err(e),
        };
        assert(list_page_outcome(&self.repository(), archive, index as usize, 1, Ok(page)));
        match check_openable(page.items.as_slice(), index) {
            Ok(()) => {},
            Err(e) => {
                assert(open_entry_outcome(&self.repository(), archive, index, temp_dir@, Err(e)));
                return Err(e);
            },
        }
        let temp_path = path_join(temp_dir, page.items[0].name.as_str());
        let indices = vec![index];
        let ix = indices.as_slice();
        let dest = temp_path.as_str();
        let extracted = self.repo.extract(archive, ix, dest);
        assert(extract_outcome(&self.repository(), archive, ix, dest, extracted));
        assert(ix@ =~= seq![index]);
        match extracted {
            Ok(u) => {
                assert(u == ());
                assert(page.items@.len() > 0 && !page.items@[0].is_directory);
                assert(dest@ == temp_path@);
                assert(open_entry_outcome(&self.repository(), archive, index, temp_dir@, Ok(temp_path)));
                Ok(temp_path)
            },
            Err(e) => {
                assert(open_entry_outcome(&self.repository(), archive, index, temp_dir@, Err(e)));
                Err(e)
            },
        }
    }
}

} // verus!
