use file_crypt::files::{Files, FilesError, PathEntry, PathKind, Visit};

fn entry(path: &str, kind: PathKind) -> PathEntry {
    PathEntry { path: path.to_string(), kind }
}

#[test]
fn empty_list_is_refused() {
    assert_eq!(Files::new(false, Vec::new()).unwrap_err(), FilesError::NoFiles);
    assert_eq!(Files::new(true, Vec::new()).unwrap_err(), FilesError::NoFiles);
}

#[test]
fn directory_without_recursion_is_refused() {
    let given = vec![entry("a.txt", PathKind::File), entry("dir", PathKind::Directory)];
    assert_eq!(Files::new(false, given).unwrap_err(), FilesError::NoRecursiveFolders);
}

#[test]
fn directory_with_recursion_is_taken() {
    let given = vec![entry("a.txt", PathKind::File), entry("dir", PathKind::Directory)];
    let files = Files::new(true, given).unwrap();
    assert!(files.is_recursive());
    assert_eq!(files.paths(), &vec!["a.txt".to_string(), "dir".to_string()]);
}

#[test]
fn missing_path_is_refused() {
    let given = vec![entry("a.txt", PathKind::File), entry("gone", PathKind::Missing)];
    assert_eq!(Files::new(false, given).unwrap_err(), FilesError::FileNotFound);
    let given = vec![entry("gone", PathKind::Missing)];
    assert_eq!(Files::new(true, given).unwrap_err(), FilesError::FileNotFound);
}

#[test]
fn first_offending_path_decides_the_error() {
    let given = vec![
        entry("a.txt", PathKind::File),
        entry("gone", PathKind::Missing),
        entry("dir", PathKind::Directory),
    ];
    assert_eq!(Files::new(false, given).unwrap_err(), FilesError::FileNotFound);
    let given = vec![
        entry("dir", PathKind::Directory),
        entry("gone", PathKind::Missing),
    ];
    assert_eq!(Files::new(false, given).unwrap_err(), FilesError::NoRecursiveFolders);
    let given = vec![
        entry("dir", PathKind::Directory),
        entry("gone", PathKind::Missing),
    ];
    assert_eq!(Files::new(true, given).unwrap_err(), FilesError::FileNotFound);
}

#[test]
fn files_alone_are_taken_in_order() {
    let given = vec![
        entry("b.txt", PathKind::File),
        entry("a.txt", PathKind::File),
        entry("b.txt", PathKind::File),
    ];
    let files = Files::new(false, given).unwrap();
    assert!(!files.is_recursive());
    assert_eq!(
        files.paths(),
        &vec!["b.txt".to_string(), "a.txt".to_string(), "b.txt".to_string()]
    );
}

#[test]
fn visit_follows_kind_and_recursion() {
    let plain = Files::new(false, vec![entry("a", PathKind::File)]).unwrap();
    assert_eq!(plain.visit(PathKind::File), Visit::Process);
    assert_eq!(plain.visit(PathKind::Directory), Visit::Skip);
    assert_eq!(plain.visit(PathKind::Missing), Visit::Skip);
    let recursive = Files::new(true, vec![entry("a", PathKind::File)]).unwrap();
    assert_eq!(recursive.visit(PathKind::File), Visit::Process);
    assert_eq!(recursive.visit(PathKind::Directory), Visit::Descend);
    assert_eq!(recursive.visit(PathKind::Missing), Visit::Skip);
}

#[test]
fn listing_gives_each_regular_file_once() {
    let listing = vec![
        entry("dir/one", PathKind::File),
        entry("dir/sub", PathKind::Directory),
        entry("dir/two", PathKind::File),
        entry("dir/socket", PathKind::Missing),
        entry("dir/three", PathKind::File),
    ];
    assert_eq!(
        Files::regular_files_of(&listing),
        vec!["dir/one".to_string(), "dir/two".to_string(), "dir/three".to_string()]
    );
}

#[test]
fn listing_without_files_gives_nothing() {
    assert_eq!(Files::regular_files_of(&Vec::new()), Vec::<String>::new());
    let listing = vec![entry("dir/sub", PathKind::Directory)];
    assert_eq!(Files::regular_files_of(&listing), Vec::<String>::new());
}

#[test]
fn error_messages_are_exact() {
    assert_eq!(FilesError::NoFiles.message(), "File list is empty");
    assert_eq!(FilesError::FileNotFound.message(), "File not found");
    assert_eq!(
        FilesError::NoRecursiveFolders.message(),
        "Use -r flag for operations with folders"
    );
}
