use backup_tool::archive::{plan_archive, plan_entry, Compression, NodeKind, SourceTree, WalkNode};

fn node(parts: &[&str], kind: NodeKind, size: u64) -> WalkNode {
    WalkNode { relative: parts.iter().map(|s| s.to_string()).collect(), kind, size }
}

#[test]
fn data_tree_under_backup_prefix() {
    let trees = vec![SourceTree {
        prefix: "backup".to_string(),
        nodes: vec![
            node(&[], NodeKind::Directory, 0),
            node(&["a.txt"], NodeKind::File, 10),
            node(&["sub"], NodeKind::Directory, 0),
        ],
    }];
    let entries = plan_archive(&trees);
    assert_eq!(entries.len(), 3);
    assert_eq!(entries[0].name, "backup/");
    assert_eq!(entries[0].method, Compression::Stored);
    assert_eq!(entries[1].name, "backup/a.txt");
    assert_eq!(entries[1].method, Compression::Deflated);
    assert!(entries[1].copy_content);
    assert_eq!(entries[2].name, "backup/sub/");
    assert_eq!(entries[2].method, Compression::Stored);
    assert!(!entries[2].copy_content);
}

#[test]
fn empty_file_is_stored_without_content() {
    let e = plan_entry("p", &node(&["empty.log"], NodeKind::File, 0)).expect("an entry");
    assert_eq!(e.name, "p/empty.log");
    assert_eq!(e.method, Compression::Stored);
    assert!(!e.copy_content);
}

#[test]
fn empty_prefix_keeps_relative_paths() {
    assert!(plan_entry("", &node(&[], NodeKind::Directory, 0)).is_none());
    let e = plan_entry("", &node(&["d", "f.bin"], NodeKind::File, 1)).expect("an entry");
    assert_eq!(e.name, "d/f.bin");
    assert_eq!(e.method, Compression::Deflated);
    let d = plan_entry("", &node(&["d"], NodeKind::Directory, 4096)).expect("an entry");
    assert_eq!(d.name, "d/");
    assert_eq!(d.method, Compression::Stored);
}

#[test]
fn trees_keep_their_order_and_prefixes() {
    let trees = vec![
        SourceTree { prefix: "one".to_string(), nodes: vec![node(&["x"], NodeKind::File, 5)] },
        SourceTree { prefix: "two/deep".to_string(), nodes: vec![node(&["y", "z"], NodeKind::File, 0)] },
    ];
    let names: Vec<String> = plan_archive(&trees).into_iter().map(|e| e.name).collect();
    assert_eq!(names, vec!["one/x".to_string(), "two/deep/y/z".to_string()]);
    let again: Vec<String> = plan_archive(&trees).into_iter().map(|e| e.name).collect();
    assert_eq!(names, again);
}

#[test]
fn no_trees_no_entries() {
    assert!(plan_archive(&Vec::new()).is_empty());
}
