use filehost::index::{basename, BuildError, FileIndex};

#[test]
fn index_counts_leaf_files() {
    let paths = vec![
        "/tmp/a.txt".to_string(),
        "/tmp/sub/b.txt".to_string(),
        "c.txt".to_string(),
    ];
    let ix = FileIndex::build(&paths).unwrap();
    assert_eq!(ix.len(), 3);
    assert_eq!(ix.name_at(0).as_str(), "a.txt");
    assert_eq!(ix.name_at(1).as_str(), "b.txt");
    assert_eq!(ix.name_at(2).as_str(), "c.txt");
}

#[test]
fn duplicate_basenames_rejected() {
    let paths = vec!["/x/one/data.bin".to_string(), "/x/two/data.bin".to_string()];
    match FileIndex::build(&paths) {
        Err(BuildError::DuplicateName(n)) => assert_eq!(n, "data.bin"),
        other => panic!("expected a duplicate-name failure, got {:?}", other),
    }
}

#[test]
fn empty_path_list_rejected() {
    let paths: Vec<String> = Vec::new();
    assert!(matches!(
        FileIndex::build(&paths),
        Err(BuildError::NoFilesGiven)
    ));
}

#[test]
fn basename_is_final_component() {
    assert_eq!(basename("/a/b/c.txt"), "c.txt");
    assert_eq!(basename("plain"), "plain");
    assert_eq!(basename("rel/dir/x"), "x");
    assert_eq!(basename("/"), "");
}

#[test]
fn build_error_messages() {
    assert_eq!(BuildError::NoFilesGiven.message(), "No files given.");
    assert_eq!(
        BuildError::DuplicateName("a.txt".to_string()).message(),
        "Duplicate file name \"a.txt\"."
    );
}

#[test]
fn lookup_finds_indexed_names() {
    let paths = vec!["/srv/a.txt".to_string(), "/srv/b.txt".to_string()];
    let ix = FileIndex::build(&paths).unwrap();
    assert_eq!(ix.lookup("a.txt"), Some(0));
    assert_eq!(ix.lookup("b.txt"), Some(1));
    assert_eq!(ix.lookup("c.txt"), None);
}
