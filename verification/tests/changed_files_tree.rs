use gittuit::tree::changed_files_tree::{
    normalize_tree_path_exec, ChangedFilesTree, FileLeaf, TreeRowKind,
};

fn leaf(path: &str, status: &str) -> FileLeaf {
    FileLeaf { path: path.to_string(), status: status.to_string() }
}

fn shape(tree: &ChangedFilesTree) -> Vec<(String, usize, TreeRowKind, bool)> {
    tree.rows().iter().map(|r| (r.path.clone(), r.depth, r.kind, r.expanded)).collect()
}

fn sample() -> ChangedFilesTree {
    let mut tree = ChangedFilesTree::new();
    tree.set_files(vec![leaf("./src\\main.rs", "M"), leaf("README.md", "A"), leaf("src/git/a.rs", "D"), leaf("", "M")]);
    tree
}

#[test]
fn paths_are_normalized() {
    assert_eq!(normalize_tree_path_exec("././a\\b.rs"), "a/b.rs");
    assert_eq!(normalize_tree_path_exec("./"), "");
}

#[test]
fn collapsed_tree_shows_top_level_only() {
    let tree = sample();
    assert_eq!(
        shape(&tree),
        vec![("src".to_string(), 0, TreeRowKind::Directory, false), ("README.md".to_string(), 0, TreeRowKind::File, false)]
    );
    assert_eq!(tree.len(), 2);
    assert_eq!(tree.row(1).unwrap().status.as_deref(), Some("A"));
    assert_eq!(tree.row(1).unwrap().name, "README.md");
    assert!(tree.row(2).is_none());
}

#[test]
fn expanding_and_collapsing_a_directory() {
    let mut tree = sample();
    assert!(tree.expand_selected_dir(0));
    assert!(!tree.expand_selected_dir(0));
    assert_eq!(
        shape(&tree),
        vec![
            ("src".to_string(), 0, TreeRowKind::Directory, true),
            ("src/git".to_string(), 1, TreeRowKind::Directory, false),
            ("src/main.rs".to_string(), 1, TreeRowKind::File, false),
            ("README.md".to_string(), 0, TreeRowKind::File, false),
        ]
    );
    assert_eq!(tree.row(1).unwrap().name, "git");
    assert!(!tree.collapse_selected_dir(2));
    assert!(tree.collapse_selected_dir(0));
    assert_eq!(shape(&tree), shape(&sample()));
}

#[test]
fn expand_all_and_lookups() {
    let mut tree = sample();
    tree.expand_all_dirs();
    assert_eq!(tree.len(), 5);
    assert_eq!(tree.row_path(2), Some("src/git/a.rs"));
    assert_eq!(tree.find_row_index_by_path("src/main.rs"), Some(3));
    assert_eq!(tree.find_row_index_by_path("nope"), None);
    assert_eq!(tree.selected_file_path(3), Some("src/main.rs".to_string()));
    assert_eq!(tree.selected_file_path(0), None);
    tree.clear();
    assert_eq!(tree.len(), 0);
    assert_eq!(ChangedFilesTree::default().len(), 0);
}
