use sora_workspace::classify::EntryKind;
use sora_workspace::node::ProjectNode;
use sora_workspace::scan::{scan_tree, RawEntry};

fn raw_file(path: &str, name: &str) -> RawEntry {
    RawEntry {
        path: path.to_string(),
        name: name.to_string(),
        kind: EntryKind::File,
        children: vec![],
    }
}

fn raw_dir(path: &str, name: &str, children: Vec<RawEntry>) -> RawEntry {
    RawEntry { path: path.to_string(), name: name.to_string(), kind: EntryKind::Directory, children }
}

fn same_nodes(a: &[ProjectNode], b: &[ProjectNode]) -> bool {
    if a.len() != b.len() {
        return false;
    }
    for i in 0..a.len() {
        if a[i].path != b[i].path || a[i].name != b[i].name || a[i].kind != b[i].kind {
            return false;
        }
        match (&a[i].children, &b[i].children) {
            (None, None) => {},
            (Some(ca), Some(cb)) => {
                if !same_nodes(ca, cb) {
                    return false;
                }
            },
            _ => return false,
        }
    }
    true
}

#[test]
fn scan_orders_directories_before_files_case_insensitively() {
    let entries = vec![
        raw_dir("/p/Backgrounds", "Backgrounds", vec![]),
        raw_file("/p/apple.txt", "apple.txt"),
        raw_dir("/p/Zebra", "Zebra", vec![]),
    ];
    let out = scan_tree(&entries);
    let names: Vec<&str> = out.iter().map(|n| n.name.as_str()).collect();
    assert_eq!(names, vec!["Backgrounds", "Zebra", "apple.txt"]);
    assert_eq!(out[0].kind, EntryKind::Directory);
    assert_eq!(out[1].kind, EntryKind::Directory);
    assert_eq!(out[2].kind, EntryKind::File);
}

#[test]
fn scan_excludes_hidden_and_system_names_at_any_depth() {
    let entries = vec![
        raw_dir(
            "/p/src",
            "src",
            vec![
                raw_file("/p/src/.hidden", ".hidden"),
                raw_file("/p/src/main.txt", "main.txt"),
                raw_dir("/p/src/node_modules", "node_modules", vec![raw_file("/x", "x")]),
            ],
        ),
        raw_dir("/p/.git", ".git", vec![raw_file("/p/.git/config", "config")]),
        raw_dir("/p/target", "target", vec![]),
        raw_file("/p/.DS_Store", ".DS_Store"),
    ];
    let out = scan_tree(&entries);
    assert_eq!(out.len(), 1);
    assert_eq!(out[0].name, "src");
    let kids = out[0].children.as_ref().unwrap();
    assert_eq!(kids.len(), 1);
    assert_eq!(kids[0].name, "main.txt");
}

#[test]
fn scan_is_idempotent_on_an_unchanged_tree() {
    let make = || {
        vec![
            raw_dir(
                "/p/Content",
                "Content",
                vec![
                    raw_file("/p/Content/b.txt", "b.txt"),
                    raw_dir("/p/Content/Art", "Art", vec![]),
                ],
            ),
            raw_file("/p/readme.md", "readme.md"),
        ]
    };
    let first = scan_tree(&make());
    let second = scan_tree(&make());
    assert!(same_nodes(&first, &second));
}

#[test]
fn scan_empty_directory_has_empty_children() {
    let entries = vec![raw_dir("/p/empty", "empty", vec![])];
    let out = scan_tree(&entries);
    assert_eq!(out.len(), 1);
    assert_eq!(out[0].children.as_ref().unwrap().len(), 0);
}

#[test]
fn scan_keeps_enumeration_order_of_folded_ties() {
    let entries = vec![raw_file("/p/Apple", "Apple"), raw_file("/p/apple", "apple")];
    let out = scan_tree(&entries);
    let names: Vec<&str> = out.iter().map(|n| n.name.as_str()).collect();
    assert_eq!(names, vec!["Apple", "apple"]);

    let swapped = vec![raw_file("/p/apple", "apple"), raw_file("/p/Apple", "Apple")];
    let out2 = scan_tree(&swapped);
    let names2: Vec<&str> = out2.iter().map(|n| n.name.as_str()).collect();
    assert_eq!(names2, vec!["apple", "Apple"]);
}

#[test]
fn scan_copies_paths_names_and_kinds() {
    let entries = vec![raw_file("/p/a.txt", "a.txt"), raw_dir("/p/d", "d", vec![])];
    let out = scan_tree(&entries);
    assert_eq!(out[0].name, "d");
    assert_eq!(out[0].path, "/p/d");
    assert_eq!(out[0].kind, EntryKind::Directory);
    assert_eq!(out[1].name, "a.txt");
    assert_eq!(out[1].path, "/p/a.txt");
    assert_eq!(out[1].kind, EntryKind::File);
    assert!(out[1].children.is_none());
}
