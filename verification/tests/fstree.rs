use csharp_toolchain::fstree::find_binary_in_dir;
use csharp_toolchain::fstree::FsEntry;
use csharp_toolchain::fstree::FsKind;

fn file(name: &str) -> FsEntry {
    FsEntry {
        name: name.to_string(),
        kind: FsKind::File,
    }
}

fn dir(name: &str, children: Vec<FsEntry>) -> FsEntry {
    FsEntry {
        name: name.to_string(),
        kind: FsKind::Dir(children),
    }
}

#[test]
fn finds_direct_child() {
    let tree = vec![file("readme.txt"), file("csharp-language-server")];
    let path = find_binary_in_dir(&tree, "csharp-language-server").unwrap();
    assert_eq!(path, vec!["csharp-language-server".to_string()]);
}

#[test]
fn finds_file_nested_at_depth() {
    let tree = vec![
        file("license"),
        dir(
            "content",
            vec![dir(
                "tools",
                vec![file("other"), file("csharp-language-server")],
            )],
        ),
    ];
    let path = find_binary_in_dir(&tree, "csharp-language-server").unwrap();
    assert_eq!(
        path,
        vec![
            "content".to_string(),
            "tools".to_string(),
            "csharp-language-server".to_string(),
        ]
    );
}

#[test]
fn reports_absence_cleanly() {
    let tree = vec![
        dir("a", vec![dir("b", vec![file("not-it")])]),
        file("also-not-it"),
    ];
    assert!(find_binary_in_dir(&tree, "csharp-language-server").is_none());
}

#[test]
fn empty_tree_has_nothing() {
    assert!(find_binary_in_dir(&Vec::new(), "csharp-language-server").is_none());
}

#[test]
fn directory_of_matching_name_is_not_the_binary() {
    let tree = vec![dir("csharp-language-server", vec![file("inner")])];
    assert!(find_binary_in_dir(&tree, "csharp-language-server").is_none());
}
