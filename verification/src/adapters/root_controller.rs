use crate::application::open::{open_archive_outcome, OpenArchiveOutput, OpenArchiveUseCase};
use crate::application::preview::{entry_preview_outcome, PreviewData, PreviewEntryUseCase};
use crate::application::test::{
    concat_all, dir_prefix, dir_prefix_of, entries_test_outcome, lemma_concat_push, TestEntriesUseCase,
};
use crate::domain::archive::{ArchiveEntry, ArchiveHandle, Page, Password, TestResult};
use crate::domain::repository::{
    add_outcome, buffer_outcome, delete_outcome, error_message, extract_outcome, list_directory_outcome,
    list_page_outcome, properties_outcome, rename_outcome, ArchiveError, ArchiveProperties,
    ArchiveRepository, ProgressNotifier, ProgressUpdate,
};
use crate::text::{decimal, decimal_text};
use vstd::prelude::*;
use vstd::string::*;

verus! {

/// The text of the update that announces an extraction.
pub open spec fn extract_start_text(count: nat, dest: Seq<char>) -> Seq<char> {
    "Extracting "@ + decimal_text(count) + " items to "@ + dest
}

/// The text of the update that reports a failed extraction.
pub open spec fn extract_error_text(id: u64, dest: Seq<char>, e: ArchiveError) -> Seq<char> {
    "Extract error (id="@ + decimal_text(id as nat) + ", dest="@ + dest + "): "@ + error_message(e)
}

/// "Extracting N items to DEST".
pub fn extract_start_message(count: usize, dest: &str) -> (r: String)
    ensures
        r@ == extract_start_text(count as nat, dest@),
{
    let mut r = String::from_str("Extracting ");
    let n = decimal(count as u64);
    r.append(n.as_str());
    r.append(" items to ");
    r.append(dest);
    r
}

/// "Extract error (id=ID, dest=DEST): MESSAGE".
pub fn extract_error_message(id: u64, dest: &str, e: &ArchiveError) -> (r: String)
    ensures
        r@ == extract_error_text(id, dest@, *e),
{
    let mut r = String::from_str("Extract error (id=");
    let n = decimal(id);
    r.append(n.as_str());
    r.append(", dest=");
    r.append(dest);
    r.append("): ");
    let m = e.message();
    r.append(m.as_str());
    r
}

/// The file indices below directory `dir`, depth first in listing order and
/// following at most `depth` levels: the repository lists `dir` with a
/// trailing '/'; a listing that fails gives nothing; each child gives its
/// own index where it is a file and the files below it (one level less deep)
/// where it is a directory.
pub open spec fn directory_files<R: ArchiveRepository>(
    repo: &R,
    archive: &ArchiveHandle,
    dir: Seq<char>,
    depth: nat,
    out: Seq<u32>,
) -> bool
    decreases depth,
{
    if depth == 0 {
        out == Seq::<u32>::empty()
    } else {
        exists|p: &str, res: Result<Vec<ArchiveEntry>, ArchiveError>|
            p@ == dir_prefix_of(dir) && list_directory_outcome(repo, archive, p, res) && match res {
                Ok(children) => exists|subs: Seq<Seq<u32>>|
                    #![trigger concat_all(subs)]
                    subs.len() == children@.len() && out == concat_all(subs) && forall|j: int|
                        0 <= j < children@.len() ==> if children@[j].is_directory {
                            directory_files(repo, archive, children@[j].path@, (depth - 1) as nat, #[trigger] subs[j])
                        } else {
                            subs[j] == seq![children@[j].original_index]
                        },
                Err(_) => out == Seq::<u32>::empty(),
            }
    }
}

/// What a child of a listed directory contributes when `depth` levels are
/// followed (see `directory_files`).
pub open spec fn child_files<R: ArchiveRepository>(
    repo: &R,
    archive: &ArchiveHandle,
    child: ArchiveEntry,
    depth: nat,
    out: Seq<u32>,
) -> bool {
    if child.is_directory {
        directory_files(repo, archive, child.path@, (depth - 1) as nat, out)
    } else {
        out == seq![child.original_index]
    }
}

/// What entry `index` of a selection expands to: the files below it where
/// its one-entry listing shows a directory, else the index itself.
pub open spec fn index_piece<R: ArchiveRepository>(
    repo: &R,
    archive: &ArchiveHandle,
    index: u32,
    piece: Seq<u32>,
) -> bool {
    exists|listed: Result<Page<ArchiveEntry>, ArchiveError>|
        #![trigger call_ensures(R::list_page, (repo, archive, index as usize, 1usize), listed)]
        list_page_outcome(repo, archive, index as usize, 1, listed) && match listed {
            Ok(page) => if page.items@.len() > 0 && page.items@[0].is_directory {
                directory_files(repo, archive, page.items@[0].path@, u32::MAX as nat, piece)
            } else {
                piece == seq![index]
            },
            Err(_) => piece == seq![index],
        }
}

/// `out` is the selection `requested` with each entry replaced by what it
/// expands to (see `index_piece`), in order.
pub open spec fn expansion_of<R: ArchiveRepository>(
    repo: &R,
    archive: &ArchiveHandle,
    requested: Seq<u32>,
    out: Seq<u32>,
) -> bool {
    exists|pieces: Seq<Seq<u32>>|
        #![trigger concat_all(pieces)]
        pieces.len() == requested.len() && out == concat_all(pieces) && forall|j: int|
            0 <= j < requested.len() ==> #[trigger] index_piece(repo, archive, requested[j], pieces[j])
}

/// The update that announces an extraction of `count` entries into `dest`
/// went to `p`.
pub open spec fn extract_announced<P: ProgressNotifier>(p: &P, count: nat, dest: Seq<char>) -> bool {
    exists|u: ProgressUpdate|
        #![trigger call_ensures(P::notify, (p, &u), ())]
        call_ensures(P::notify, (p, &u), ()) && u.file_current == 0 && u.file_total == count && (u.current_file
            matches Some(m) && m@ == extract_start_text(count, dest)) && u.items_done == 0 && u.items_total == count
            && u.bytes_done == 0 && u.bytes_total == 100 && u.error is None
}

/// The update that reports how an extraction of `count` entries from the
/// archive with id `id` into `dest` ended went to `p`: all items done, or
/// none and the error.
pub open spec fn extract_reported<P: ProgressNotifier>(
    p: &P,
    count: nat,
    id: u64,
    dest: Seq<char>,
    r: Result<(), ArchiveError>,
) -> bool {
    exists|u: ProgressUpdate|
        #![trigger call_ensures(P::notify, (p, &u), ())]
        call_ensures(P::notify, (p, &u), ()) && u.file_current == 0 && u.file_total == 0 && u.current_file is None
            && u.items_done == (if r is Ok {
            count
        } else {
            0
        }) && u.items_total == count && u.bytes_done == 100 && u.bytes_total == 100 && match r {
            Ok(()) => u.error is None,
            Err(e) => u.error matches Some(m) && m@ == extract_error_text(id, dest, e),
        }
}

/// The operations that the main window performs on archives, over a
/// repository.
pub struct RootController<R> {
    repo: R,
}

impl<R: ArchiveRepository> RootController<R> {
    /// The repository that the controller works through.
    pub closed spec fn repository(&self) -> R {
        self.repo
    }

    pub fn new(repo: R) -> (r: Self)
        ensures
            r.repository() == repo,
    {
        RootController { repo }
    }

    pub fn repo(&self) -> (r: &R)
        ensures
            *r == self.repository(),
    {
        &self.repo
    }

    /// Opens the archive at `path` and reads its properties, through a clone
    /// of the repository (see `OpenArchiveUseCase::execute`).
    pub fn open_archive(&self, path: &str, password: Option<&Password>) -> (r: Result<OpenArchiveOutput, ArchiveError>)
        where R: Clone,
        ensures
            exists|c: R| cloned::<R>(self.repository(), c) && open_archive_outcome(&c, path, password, r),
    {
        let c = self.repo.clone();
        assert(cloned::<R>(self.repository(), c));
        let uc = OpenArchiveUseCase::new(c);
        uc.execute(path, password)
    }

    /// Extracts the selection, directories expanded to the files below them,
    /// into `dest`. Where a receiver is given it gets an update before the
    /// extraction and one after it, which carries the error if it failed.
    pub fn extract<P: ProgressNotifier>(
        &self,
        archive: &ArchiveHandle,
        indices: &[u32],
        dest: &str,
        progress: Option<&P>,
    ) -> (r: Result<(), ArchiveError>)
        ensures
            exists|s: &[u32]|
                #![trigger expansion_of(&self.repository(), archive, indices@, s@)]
                expansion_of(&self.repository(), archive, indices@, s@) && extract_outcome(
                    &self.repository(),
                    archive,
                    s,
                    dest,
                    r,
                ) && (progress matches Some(p) ==> extract_announced(p, s@.len(), dest@) && extract_reported(
                    p,
                    s@.len(),
                    archive@.id,
                    dest@,
                    r,
                )),
    {
        let expanded = match self.expand_indices(archive, indices) {
            Ok(v) => v,
            Err(e) => return Err(e),
        };
        let count = expanded.len() as u64;
        if let Some(p) = progress {
            let u = ProgressUpdate {
                file_current: 0,
                file_total: count,
                current_file: Some(extract_start_message(expanded.len(), dest)),
                items_done: 0,
                items_total: count,
                bytes_done: 0,
                bytes_total: 100,
                error: None,
            };
            let ret = p.notify(&u);
            assert(ret == ());
            assert(extract_announced(p, expanded@.len(), dest@));
        }
        let s = expanded.as_slice();
        let result = self.repo.extract(archive, s, dest);
        assert(extract_outcome(&self.repository(), archive, s, dest, result));
        if let Some(p) = progress {
            let err_str = match &result {
                Ok(()) => None,
                Err(e) => Some(extract_error_message(archive.id(), dest, e)),
            };
            let items_done = if result.is_ok() {
                count
            } else {
                0
            };
            let u = ProgressUpdate {
                file_current: 0,
                file_total: 0,
                current_file: None,
                items_done,
                items_total: count,
                bytes_done: 100,
                bytes_total: 100,
                error: err_str,
            };
            let ret = p.notify(&u);
            assert(ret == ());
            assert(extract_reported(p, expanded@.len(), archive@.id, dest@, result));
        }
        result
    }

    /// The selection with each directory replaced by the files below it, in
    /// listing order; an index whose entry cannot be listed stays as it is.
    pub fn expand_indices(&self, archive: &ArchiveHandle, indices: &[u32]) -> (r: Result<Vec<u32>, ArchiveError>)
        ensures
            r matches Ok(out) && expansion_of(&self.repository(), archive, indices@, out@),
    {
        let mut expanded: Vec<u32> = Vec::new();
        let ghost mut pieces: Seq<Seq<u32>> = Seq::empty();
        let n = indices.len();
        let mut i: usize = 0;
        while i < n
            invariant
                n == indices@.len(),
                i <= n,
                pieces.len() == i,
                expanded@ == concat_all(pieces),
                forall|j: int| 0 <= j < i ==> #[trigger] index_piece(&self.repository(), archive, indices@[j], pieces[j]),
            decreases n - i,
        {
            let idx = indices[i];
            let ghost before = expanded@;
            let listed = self.repo.list_page(archive, idx as usize, 1);
            assert(list_page_outcome(&self.repository(), archive, idx as usize, 1, listed));
            if let Ok(page) = &listed {
                if page.items.len() > 0 {
                    let entry = &page.items[0];
                    if entry.is_directory {
                        self.collect_directory(archive, &entry.path, &mut expanded, u32::MAX);
                        proof {
                            let added = expanded@.subrange(before.len() as int, expanded@.len() as int);
                            assert(expanded@ == before + added);
                            lemma_concat_push(pieces, added);
                            assert(index_piece(&self.repository(), archive, idx, added));
                            pieces = pieces.push(added);
                            assert forall|j: int| 0 <= j < i + 1 implies #[trigger] index_piece(
                                &self.repository(),
                                archive,
                                indices@[j],
                                pieces[j],
                            ) by {
                                if j == i {
                                    assert(indices@[j] == idx);
                                }
                            }
                        }
                        i = i + 1;
                        continue ;
                    }
                }
            }
            expanded.push(idx);
            proof {
                lemma_concat_push(pieces, seq![idx]);
                assert(expanded@ == before + seq![idx]);
                assert(index_piece(&self.repository(), archive, idx, seq![idx]));
                pieces = pieces.push(seq![idx]);
                assert forall|j: int| 0 <= j < i + 1 implies #[trigger] index_piece(
                    &self.repository(),
                    archive,
                    indices@[j],
                    pieces[j],
                ) by {
                    if j == i {
                        assert(indices@[j] == idx);
                    }
                }
            }
            i = i + 1;
        }
        Ok(expanded)
    }

    /// Appends the file indices below `dir_path` to `expanded`, depth first
    /// in listing order; a directory that cannot be listed adds nothing.
    /// `depth` bounds the nesting that is followed.
    fn collect_directory(&self, archive: &ArchiveHandle, dir_path: &String, expanded: &mut Vec<u32>, depth: u32)
        ensures
            final(expanded)@.len() >= old(expanded)@.len(),
            final(expanded)@.subrange(0, old(expanded)@.len() as int) == old(expanded)@,
            directory_files(
                &self.repository(),
                archive,
                dir_path@,
                depth as nat,
                final(expanded)@.subrange(old(expanded)@.len() as int, final(expanded)@.len() as int),
            ),
        decreases depth,
    {
        let ghost start = expanded@;
        if depth == 0 {
            assert(expanded@.subrange(start.len() as int, expanded@.len() as int) =~= Seq::<u32>::empty());
            assert(expanded@.subrange(0, start.len() as int) =~= start);
            return ;
        }
        let path = dir_prefix(dir_path);
        let p = path.as_str();
        let listed = self.repo.list_directory(archive, p);
        assert(list_directory_outcome(&self.repository(), archive, p, listed));
        match &listed {
            Ok(children) => {
                let ghost mut subs: Seq<Seq<u32>> = Seq::empty();
                let n = children.len();
                let mut k: usize = 0;
                while k < n
                    invariant
                        n == children@.len(),
                        k <= n,
                        depth > 0,
                        subs.len() == k,
                        expanded@ == start + concat_all(subs),
                        forall|j: int|
                            0 <= j < k ==> #[trigger] child_files(
                                &self.repository(),
                                archive,
                                children@[j],
                                    depth as nat,
                                subs[j],
                            ),
                    decreases n - k,
                {
                    let child = &children[k];
                    let ghost mid = expanded@;
                    if child.is_directory {
                        self.collect_directory(archive, &child.path, expanded, depth - 1);
                        proof {
                            let added = expanded@.subrange(mid.len() as int, expanded@.len() as int);
                            assert(expanded@ == mid + added);
                            lemma_concat_push(subs, added);
                            assert(children@[k as int] == *child);
                            subs = subs.push(added);
                        }
                    } else {
                        expanded.push(child.original_index);
                        proof {
                            lemma_concat_push(subs, seq![child.original_index]);
                            assert(children@[k as int] == *child);
                            subs = subs.push(seq![child.original_index]);
                        }
                    }
                    proof {
                        assert forall|j: int|
                            0 <= j < k + 1 implies #[trigger] child_files(
                            &self.repository(),
                            archive,
                            children@[j],
                            depth as nat,
                            subs[j],
                        ) by {}
                    }
                    k = k + 1;
                }
                proof {
                    assert(expanded@.subrange(start.len() as int, expanded@.len() as int) =~= concat_all(subs));
                    assert(expanded@.subrange(0, start.len() as int) =~= start);
                    assert(path@ == dir_prefix_of(dir_path@));
                    assert(listed == Ok::<Vec<ArchiveEntry>, ArchiveError>(*children));
                    assert(forall|j: int|
                        0 <= j < children@.len() ==> if children@[j].is_directory {
                            directory_files(
                                &self.repository(),
                                archive,
                                children@[j].path@,
                                (depth - 1) as nat,
                                #[trigger] subs[j],
                            )
                        } else {
                            subs[j] == seq![children@[j].original_index]
                        }) by {
                        assert forall|j: int| 0 <= j < children@.len() implies if children@[j].is_directory {
                            directory_files(
                                &self.repository(),
                                archive,
                                children@[j].path@,
                                (depth - 1) as nat,
                                #[trigger] subs[j],
                            )
                        } else {
                            subs[j] == seq![children@[j].original_index]
                        } by {
                            assert(child_files(&self.repository(), archive, children@[j], depth as nat, subs[j]));
                        }
                    }
                    assert(directory_files(
                        &self.repository(),
                        archive,
                        dir_path@,
                        depth as nat,
                        concat_all(subs),
                    ));
                }
            },
            Err(_) => {
                assert(expanded@.subrange(start.len() as int, expanded@.len() as int) =~= Seq::<u32>::empty());
                assert(expanded@.subrange(0, start.len() as int) =~= start);
            },
        }
    }

    /// The data of entry `index`, as the repository reads it.
    pub fn extract_to_buffer(&self, archive: &ArchiveHandle, index: u32) -> (r: Result<Vec<u8>, ArchiveError>)
        ensures
            buffer_outcome(&self.repository(), archive, index, r),
    {
        self.repo.extract_to_buffer(archive, index)
    }

    /// Adds `files` to the archive without a password, through the
    /// repository.
    pub fn add_files(&self, archive: &mut ArchiveHandle, files: &[String]) -> (r: Result<(), ArchiveError>)
        ensures
            exists|m: &mut ArchiveHandle|
                *m == *old(archive) && *final(m) == *final(archive) && add_outcome(
                    &self.repository(),
                    m,
                    files,
                    None,
                    r,
                ),
    {
        self.repo.add(archive, files, None)
    }

    /// Deletes the entries `indices`, through the repository.
    pub fn delete_entries(&self, archive: &mut ArchiveHandle, indices: &[u32]) -> (r: Result<(), ArchiveError>)
        ensures
            exists|m: &mut ArchiveHandle|
                *m == *old(archive) && *final(m) == *final(archive) && delete_outcome(
                    &self.repository(),
                    m,
                    indices,
                    r,
                ),
    {
        self.repo.delete(archive, indices)
    }

    /// Renames entry `index` to `new_name`, through the repository.
    pub fn rename_entry(&self, archive: &mut ArchiveHandle, index: u32, new_name: &str) -> (r: Result<(), ArchiveError>)
        ensures
            exists|m: &mut ArchiveHandle|
                *m == *old(archive) && *final(m) == *final(archive) && rename_outcome(
                    &self.repository(),
                    m,
                    index,
                    new_name,
                    r,
                ),
    {
        self.repo.rename(archive, index, new_name)
    }

    /// Tests the given entries (every entry where `indices` is `None`).
    pub fn test_entries(&self, archive: &ArchiveHandle, indices: Option<&[u32]>) -> (r: Result<TestResult, ArchiveError>)
        where R: Clone,
        ensures
            exists|c: R| cloned::<R>(self.repository(), c) && entries_test_outcome(&c, archive, indices, r),
    {
        let c = self.repo.clone();
        assert(cloned::<R>(self.repository(), c));
        let uc = TestEntriesUseCase::new(c);
        uc.execute::<NoProgress>(archive, indices, None)
    }

    /// The preview of entry `index` (see `PreviewEntryUseCase::execute`).
    pub fn preview_entry(&self, archive: &ArchiveHandle, index: u32, max_bytes: usize) -> (r: Result<
        PreviewData,
        ArchiveError,
    >)
        where R: Clone,
        ensures
            exists|c: R| cloned::<R>(self.repository(), c) && entry_preview_outcome(&c, archive, index, max_bytes as nat, r),
    {
        let c = self.repo.clone();
        assert(cloned::<R>(self.repository(), c));
        let uc = PreviewEntryUseCase::new(c);
        uc.execute(archive, index, max_bytes)
    }

    /// A page of the listing, as the repository gives it.
    pub fn list_page(&self, archive: &ArchiveHandle, offset: usize, limit: usize) -> (r: Result<Page<ArchiveEntry>, ArchiveError>)
        ensures
            list_page_outcome(&self.repository(), archive, offset, limit, r),
    {
        self.repo.list_page(archive, offset, limit)
    }

    /// The children of directory `path`, as the repository lists them.
    pub fn list_directory(&self, archive: &ArchiveHandle, path: &str) -> (r: Result<Vec<ArchiveEntry>, ArchiveError>)
        ensures
            list_directory_outcome(&self.repository(), archive, path, r),
    {
        self.repo.list_directory(archive, path)
    }

    /// The archive's properties, as the repository reads them.
    pub fn get_properties(&self, archive: &ArchiveHandle) -> (r: Result<ArchiveProperties, ArchiveError>)
        ensures
            properties_outcome(&self.repository(), archive, r),
    {
        self.repo.get_properties(archive)
    }

    /// Closes the archive through the repository.
    pub fn close_archive(&self, archive: ArchiveHandle)
        ensures
            call_ensures(R::close, (&self.repository(), archive), ()),
    {
        let ret = self.repo.close(archive);
        assert(ret == ());
    }
}

/// A progress receiver that drops every update.
pub struct NoProgress;

impl ProgressNotifier for NoProgress {
    fn notify(&self, _update: &ProgressUpdate) {
    }
}

} // verus!
