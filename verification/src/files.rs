//! The rules of the traversal: which paths are taken at all, and what is
//! done with each.

use vstd::prelude::*;

verus! {

/// What a path was found to be.
#[derive(Clone, Copy, Debug, PartialEq, Eq, Structural)]
pub enum PathKind {
    /// A regular file.
    File,
    /// A directory.
    Directory,
    /// Neither: nothing is there, or nothing that can be read as a file.
    Missing,
}

/// A path together with what it was found to be.
#[derive(Debug)]
pub struct PathEntry {
    pub path: String,
    pub kind: PathKind,
}

/// Why a list of paths is not taken.
#[derive(Clone, Copy, Debug, PartialEq, Eq, Structural)]
pub enum FilesError {
    /// The list is empty.
    NoFiles,
    /// A path is neither a file nor a directory.
    FileNotFound,
    /// A path is a directory, and directories were not asked for.
    NoRecursiveFolders,
}

impl FilesError {
    /// The words that tell the operator what is wrong.
    pub open spec fn text(self) -> Seq<char> {
        match self {
            FilesError::NoFiles => "File list is empty"@,
            FilesError::FileNotFound => "File not found"@,
            FilesError::NoRecursiveFolders => "Use -r flag for operations with folders"@,
        }
    }

    /// The words that tell the operator what is wrong.
    pub fn message(&self) -> (text: String)
        ensures
            text@ == self.text(),
    {
        match self {
            FilesError::NoFiles => String::from_str("File list is empty"),
            FilesError::FileNotFound => String::from_str("File not found"),
            FilesError::NoRecursiveFolders => String::from_str(
                "Use -r flag for operations with folders",
            ),
        }
    }
}

/// What is done with one path of the list when its turn comes.
#[derive(Clone, Copy, Debug, PartialEq, Eq, Structural)]
pub enum Visit {
    /// The path is handed to the engine.
    Process,
    /// The files directly inside the directory are handed to the engine.
    Descend,
    /// Nothing is done.
    Skip,
}

/// What is wrong with a path of kind `kind`, if anything.
pub open spec fn offence(is_recursive: bool, kind: PathKind) -> Option<FilesError> {
    match kind {
        PathKind::File => None,
        PathKind::Directory => if is_recursive {
            None
        } else {
            Some(FilesError::NoRecursiveFolders)
        },
        PathKind::Missing => Some(FilesError::FileNotFound),
    }
}

/// What is done with a path that is of kind `kind` when its turn comes.
pub open spec fn visit_of(is_recursive: bool, kind: PathKind) -> Visit {
    match kind {
        PathKind::File => Visit::Process,
        PathKind::Directory => if is_recursive {
            Visit::Descend
        } else {
            Visit::Skip
        },
        PathKind::Missing => Visit::Skip,
    }
}

/// The paths of `entries`, in order.
pub open spec fn paths_of(entries: Seq<PathEntry>) -> Seq<Seq<char>> {
    Seq::new(entries.len(), |i: int| entries[i].path@)
}

/// The paths of the regular files among `entries`, in order: each entry
/// that is a file gives its path once, and no other entry gives anything.
pub open spec fn regular_files(entries: Seq<PathEntry>) -> Seq<Seq<char>> {
    paths_of(entries.filter(is_file()))
}

/// The test that an entry is a regular file.
pub open spec fn is_file() -> spec_fn(PathEntry) -> bool {
    |entry: PathEntry| entry.kind == PathKind::File
}

/// The characters of each text of `texts`, in order.
pub open spec fn texts_of(texts: Seq<String>) -> Seq<Seq<char>> {
    Seq::new(texts.len(), |i: int| texts[i]@)
}

/// The paths to work on, and whether directories among them are entered.
#[derive(Debug)]
pub struct Files {
    is_recursive: bool,
    paths: Vec<String>,
}

/// What a `Files` holds.
pub struct FilesModel {
    pub is_recursive: bool,
    pub paths: Seq<Seq<char>>,
}

impl View for Files {
    type V = FilesModel;

    closed spec fn view(&self) -> FilesModel {
        FilesModel { is_recursive: self.is_recursive, paths: texts_of(self.paths@) }
    }
}

impl Files {
    /// Takes a list of paths, each with what it was found to be, or says
    /// what is wrong with it: that it is empty, or else what is wrong with
    /// the first path that is a directory where none was asked for or that
    /// is neither file nor directory.
    pub fn new(is_recursive: bool, files: Vec<PathEntry>) -> (r: Result<Self, FilesError>)
        ensures
            !is_recursive && (exists|i: int|
                0 <= i < files@.len() && (#[trigger] files@[i]).kind == PathKind::Directory)
                ==> r is Err,
            match r {
                Ok(taken) => {
                    &&& files@.len() > 0
                    &&& forall|i: int|
                        0 <= i < files@.len() ==> offence(is_recursive, #[trigger] files@[i].kind)
                            is None
                    &&& taken@.is_recursive == is_recursive
                    &&& taken@.paths == paths_of(files@)
                },
                Err(e) => if files@.len() == 0 {
                    e == FilesError::NoFiles
                } else {
                    exists|i: int|
                        {
                            &&& 0 <= i < files@.len()
                            &&& offence(is_recursive, #[trigger] files@[i].kind) == Some(e)
                            &&& forall|j: int|
                                0 <= j < i ==> offence(is_recursive, #[trigger] files@[j].kind)
                                    is None
                        }
                },
            },
    {
        if files.len() == 0 {
            return Err(FilesError::NoFiles);
        }
        let mut paths: Vec<String> = Vec::new();
        let total: usize = files.len();
        let mut i: usize = 0;
        while i < total
            invariant
                total == files@.len(),
                i <= total,
                paths@.len() == i,
                forall|j: int|
                    0 <= j < i ==> offence(is_recursive, #[trigger] files@[j].kind) is None,
                forall|j: int| 0 <= j < i ==> (#[trigger] paths@[j])@ == files@[j].path@,
            decreases total - i,
        {
            let kind = files[i].kind;
            if kind == PathKind::Directory && !is_recursive {
                assert(offence(is_recursive, files@[i as int].kind) == Some(
                    FilesError::NoRecursiveFolders,
                ));
                return Err(FilesError::NoRecursiveFolders);
            } else if kind == PathKind::Missing {
                assert(offence(is_recursive, files@[i as int].kind) == Some(
                    FilesError::FileNotFound,
                ));
                return Err(FilesError::FileNotFound);
            }
            paths.push(files[i].path.clone());
            i = i + 1;
        }
        let taken = Files { is_recursive, paths };
        assert(taken@.paths =~= paths_of(files@));
        Ok(taken)
    }

    /// Whether directories are entered.
    pub fn is_recursive(&self) -> (b: bool)
        ensures
            b == self@.is_recursive,
    {
        self.is_recursive
    }

    /// The paths to work on, in the order they were given.
    pub fn paths(&self) -> (paths: &Vec<String>)
        ensures
            texts_of(paths@) == self@.paths,
    {
        &self.paths
    }

    /// What is done with a path of the list that is found to be of kind
    /// `kind` when its turn comes: a file is handed to the engine, a
    /// directory is entered where directories are, and anything else is
    /// passed over.
    pub fn visit(&self, kind: PathKind) -> (v: Visit)
        ensures
            v == visit_of(self@.is_recursive, kind),
    {
        match kind {
            PathKind::File => Visit::Process,
            PathKind::Directory => if self.is_recursive {
                Visit::Descend
            } else {
                Visit::Skip
            },
            PathKind::Missing => Visit::Skip,
        }
    }

    /// The paths to hand to the engine from the listing of a directory that
    /// is entered: those of its regular files, each once, in the order of
    /// the listing.
    pub fn regular_files_of(listing: &Vec<PathEntry>) -> (targets: Vec<String>)
        ensures
            texts_of(targets@) == regular_files(listing@),
    {
        let mut targets: Vec<String> = Vec::new();
        let total: usize = listing.len();
        let mut i: usize = 0;
        while i < total
            invariant
                total == listing@.len(),
                i <= total,
                texts_of(targets@) == regular_files(listing@.take(i as int)),
            decreases total - i,
        {
            proof {
                let seen = listing@.take(i as int + 1);
                assert(seen.drop_last() =~= listing@.take(i as int));
                assert(seen.last() == listing@[i as int]);
                reveal_with_fuel(Seq::filter, 2);
            }
            let ghost before = targets@;
            if listing[i].kind == PathKind::File {
                targets.push(listing[i].path.clone());
                assert(texts_of(targets@) =~= texts_of(before).push(listing@[i as int].path@));
                assert(regular_files(listing@.take(i as int + 1)) =~= regular_files(
                    listing@.take(i as int),
                ).push(listing@[i as int].path@));
            }
            i = i + 1;
        }
        assert(listing@.take(total as int) =~= listing@);
        targets
    }
}

/// A path that `Files::new` lets through is not passed over when its turn
/// comes, as long as it is still what it was found to be.
pub proof fn lemma_taken_paths_are_visited(is_recursive: bool, kind: PathKind)
    requires
        offence(is_recursive, kind) is None,
    ensures
        visit_of(is_recursive, kind) != Visit::Skip,
        kind == PathKind::Directory ==> visit_of(is_recursive, kind) == Visit::Descend,
{
}

/// Whether `path` is the path of a regular file among `entries`.
pub open spec fn lists_file(entries: Seq<PathEntry>, path: Seq<char>) -> bool {
    exists|i: int|
        0 <= i < entries.len() && (#[trigger] entries[i]).kind == PathKind::File
            && entries[i].path@ == path
}

/// Of a listing, the regular files are handed on and nothing else is.
pub proof fn lemma_regular_files_only(entries: Seq<PathEntry>)
    ensures
        forall|i: int|
            0 <= i < entries.len() && (#[trigger] entries[i]).kind == PathKind::File
                ==> regular_files(entries).contains(entries[i].path@),
        forall|k: int|
            0 <= k < regular_files(entries).len() ==> lists_file(
                entries,
                #[trigger] regular_files(entries)[k],
            ),
        regular_files(entries).len() <= entries.len(),
{
    let is_file = is_file();
    let kept = entries.filter(is_file);
    entries.lemma_filter_len(is_file);
    assert forall|i: int|
        0 <= i < entries.len() && (#[trigger] entries[i]).kind
            == PathKind::File implies regular_files(entries).contains(entries[i].path@) by {
        entries.lemma_filter_contains(is_file, i);
        let k = choose|k: int| 0 <= k < kept.len() && kept[k] == entries[i];
        assert(regular_files(entries)[k] == entries[i].path@);
    }
    assert forall|k: int| 0 <= k < regular_files(entries).len() implies lists_file(
        entries,
        #[trigger] regular_files(entries)[k],
    ) by {
        entries.lemma_filter_pred(is_file, k);
        assert(kept.contains(kept[k]));
        entries.lemma_filter_contains_rev(is_file, kept[k]);
        let i = choose|i: int| 0 <= i < entries.len() && entries[i] == kept[k];
        assert(entries[i].kind == PathKind::File);
    }
}

/// Of a listing that names no path twice, each regular file is handed on
/// once.
pub proof fn lemma_each_regular_file_once(entries: Seq<PathEntry>)
    requires
        forall|i: int, j: int|
            0 <= i < j < entries.len() ==> (#[trigger] entries[i]).path@ != (
            #[trigger] entries[j]).path@,
    ensures
        regular_files(entries).no_duplicates(),
    decreases entries.len(),
{
    reveal_with_fuel(Seq::filter, 2);
    if entries.len() > 0 {
        let rest = entries.drop_last();
        let last = entries.last();
        lemma_each_regular_file_once(rest);
        lemma_regular_files_only(rest);
        if last.kind == PathKind::File {
            assert(regular_files(entries) =~= regular_files(rest).push(last.path@));
            assert forall|k: int| 0 <= k < regular_files(rest).len() implies regular_files(
                rest,
            )[k] != last.path@ by {
                assert(lists_file(rest, regular_files(rest)[k]));
                let i = choose|i: int|
                    0 <= i < rest.len() && (#[trigger] rest[i]).kind == PathKind::File
                        && rest[i].path@ == regular_files(rest)[k];
                assert(entries[i] == rest[i]);
                assert(entries[entries.len() - 1] == last);
            }
        } else {
            assert(regular_files(entries) =~= regular_files(rest));
        }
    }
}

} // verus!
