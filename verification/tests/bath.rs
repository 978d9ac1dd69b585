use cli_boilerplate_automation::bath::{
    abs, basename, clone_parts, is_empty, is_hidden, len, normalize, prefix_leads_in, root_dir,
    split_ext, PathPart,
};
use std::path::{Component, Path};

fn name(s: &str) -> PathPart {
    PathPart::Normal(s.as_bytes().to_vec())
}

fn prefix(s: &str) -> PathPart {
    PathPart::Prefix(s.as_bytes().to_vec())
}

/// The parts that the platform's parser finds in a path.
fn parts(path: &str) -> Vec<PathPart> {
    Path::new(path)
        .components()
        .map(|c| match c {
            Component::Prefix(p) => prefix(p.as_os_str().to_str().unwrap()),
            Component::RootDir => PathPart::RootDir,
            Component::CurDir => PathPart::CurDir,
            Component::ParentDir => PathPart::ParentDir,
            Component::Normal(n) => name(n.to_str().unwrap()),
        })
        .collect()
}

#[test]
fn normalize_resolves_dots() {
    let path = vec![
        PathPart::RootDir,
        name("a"),
        PathPart::CurDir,
        name("b"),
        PathPart::ParentDir,
        name("c"),
    ];
    assert_eq!(normalize(&path), vec![PathPart::RootDir, name("a"), name("c")]);
}

#[test]
fn normalize_drops_parent_at_root_and_at_start() {
    assert_eq!(
        normalize(&vec![PathPart::RootDir, PathPart::ParentDir, name("a")]),
        vec![PathPart::RootDir, name("a")]
    );
    assert_eq!(normalize(&vec![PathPart::ParentDir, name("a")]), vec![name("a")]);
    assert_eq!(
        normalize(&vec![name("a"), PathPart::ParentDir, PathPart::ParentDir]),
        Vec::<PathPart>::new()
    );
    assert_eq!(normalize(&vec![PathPart::CurDir]), Vec::<PathPart>::new());
    assert_eq!(normalize(&Vec::new()), Vec::<PathPart>::new());
}

#[test]
fn normalize_keeps_prefix_and_root() {
    let c = prefix("C:");
    assert_eq!(
        normalize(&vec![c.clone(), PathPart::RootDir, name("x"), PathPart::ParentDir]),
        vec![c.clone(), PathPart::RootDir]
    );
    assert_eq!(
        normalize(&vec![c.clone(), PathPart::ParentDir, name("x")]),
        vec![c.clone(), name("x")]
    );
    assert_eq!(
        normalize(&vec![c.clone(), PathPart::RootDir, PathPart::ParentDir]),
        vec![c, PathPart::RootDir]
    );
}

#[test]
fn normalize_is_idempotent() {
    let paths = [
        "/a/./b/../c",
        "../../x/y/..",
        "a/b/c",
        "/",
        "",
        ".",
        "./a/../../b/./c/",
        "/../..",
    ];
    for p in paths {
        let once = normalize(&parts(p));
        let twice = normalize(&once);
        assert_eq!(once, twice);
        for part in &once {
            assert!(!matches!(part, PathPart::CurDir | PathPart::ParentDir));
        }
    }
}

#[test]
fn normalize_keeps_names_that_are_no_text() {
    let odd = PathPart::Normal(vec![0x66, 0xff, 0x6f]);
    assert_eq!(
        normalize(&vec![PathPart::RootDir, name("a"), PathPart::ParentDir, odd.clone()]),
        vec![PathPart::RootDir, odd.clone()]
    );
    assert_eq!(basename(&vec![odd]), Some(vec![0x66, 0xff, 0x6f]));
}

#[test]
fn normalize_parsed_paths() {
    assert_eq!(normalize(&parts("/a/./b/../c")), parts("/a/c"));
    assert_eq!(normalize(&parts("a/b/../../..")), parts(""));
    assert_eq!(normalize(&parts("./a//b/")), parts("a/b"));
    assert_eq!(normalize(&parts("/..")), parts("/"));
}

#[test]
fn basename_is_the_last_name() {
    assert_eq!(basename(&parts("/usr/lib/x.so")), Some(b"x.so".to_vec()));
    assert_eq!(basename(&parts("a")), Some(b"a".to_vec()));
    assert_eq!(basename(&parts("a/..")), None);
    assert_eq!(basename(&parts("/")), None);
    assert_eq!(basename(&parts("")), None);
    assert_eq!(basename(&vec![name("a"), PathPart::CurDir]), None);
}

#[test]
fn len_counts_normalized_parts() {
    assert_eq!(len(&parts("/a/./b/../c")), 3);
    assert_eq!(len(&parts("a/b/c")), 3);
    assert_eq!(len(&parts("a/..")), 0);
    assert_eq!(len(&parts("/")), 1);
    assert_eq!(len(&parts("")), 0);
}

#[test]
fn is_hidden_tells_names_without_a_leading_dot() {
    assert!(is_hidden(&parts("/home/user/file.txt")));
    assert!(!is_hidden(&parts("/home/user/.bashrc")));
    assert!(!is_hidden(&parts("/")));
    assert!(!is_hidden(&parts("")));
    assert!(!is_hidden(&parts("a/..")));
    assert!(is_hidden(&parts("a/.b/../c")));
    assert!(!is_hidden(&parts("a/b/../.c")));
    // a name that is no text is judged by its first byte
    assert!(is_hidden(&vec![PathPart::Normal(vec![0xff, 0x2e])]));
    assert!(!is_hidden(&vec![PathPart::Normal(vec![0x2e, 0xff])]));
    assert!(is_hidden(&vec![PathPart::Normal(Vec::new())]));
}

#[test]
fn is_empty_is_for_no_parts() {
    assert!(is_empty(&parts("")));
    assert!(!is_empty(&parts(".")));
    assert!(!is_empty(&parts("/")));
    assert!(!is_empty(&parts("a")));
}

#[test]
fn root_dir_is_the_root_alone() {
    assert_eq!(root_dir(), vec![PathPart::RootDir]);
    assert_eq!(root_dir(), parts("/"));
}

#[test]
fn abs_joins_and_normalizes() {
    let base = parts("/home/user");
    assert_eq!(abs(&parts("docs/../x"), false, &base), parts("/home/user/x"));
    assert_eq!(abs(&parts("./x"), false, &base), parts("/home/user/x"));
    assert_eq!(abs(&parts("../../../x"), false, &base), parts("/x"));
    assert_eq!(abs(&parts("/etc/./passwd"), true, &base), parts("/etc/passwd"));
    assert_eq!(abs(&parts(""), false, &base), base);
}

#[test]
fn abs_with_prefixes() {
    let c = prefix("C:");
    let d = prefix("D:");
    let base = vec![c.clone(), PathPart::RootDir, name("users")];
    // a path with a prefix of its own stands for itself
    assert_eq!(abs(&vec![d.clone(), name("x")], false, &base), vec![d, name("x")]);
    // a path from the root keeps the prefix of the base
    assert_eq!(
        abs(&vec![PathPart::RootDir, name("x")], false, &base),
        vec![c.clone(), PathPart::RootDir, name("x")]
    );
    assert_eq!(
        abs(&vec![name("x")], false, &base),
        vec![c, PathPart::RootDir, name("users"), name("x")]
    );
}

#[test]
fn parts_can_be_copied() {
    let p = prefix("C:");
    assert_eq!(p.clone(), p);
    assert_eq!(PathPart::ParentDir.clone(), PathPart::ParentDir);
    let path = parts("/a/../b");
    assert_eq!(clone_parts(&path), path);
}

#[test]
fn split_ext_splits_at_the_last_dot() {
    assert_eq!(split_ext("archive.tar.gz"), ["archive.tar", "gz"]);
    assert_eq!(split_ext("a.txt"), ["a", "txt"]);
    assert_eq!(split_ext("noext"), ["noext", ""]);
    assert_eq!(split_ext(""), ["", ""]);
}

#[test]
fn split_ext_edge_cases() {
    // a dot in front is no extension
    assert_eq!(split_ext(".bashrc"), [".bashrc", ""]);
    // a dot at the end leaves an empty extension
    assert_eq!(split_ext("name."), ["name", ""]);
    assert_eq!(split_ext("."), [".", ""]);
    assert_eq!(split_ext(".."), [".", ""]);
    assert_eq!(split_ext(".a.b"), [".a", "b"]);
    // characters of more than one byte
    assert_eq!(split_ext("r\u{e9}sum\u{e9}.p\u{e4}f"), ["r\u{e9}sum\u{e9}", "p\u{e4}f"]);
}

#[test]
fn prefix_leads_in_finds_a_prefix_out_of_place() {
    assert!(prefix_leads_in(&Vec::new()));
    assert!(prefix_leads_in(&vec![prefix("C:")]));
    assert!(prefix_leads_in(&vec![prefix("C:"), PathPart::RootDir, name("a")]));
    assert!(prefix_leads_in(&parts("/a/b/../c")));
    assert!(!prefix_leads_in(&vec![name("a"), prefix("C:")]));
    assert!(!prefix_leads_in(&vec![prefix("C:"), prefix("D:")]));
    assert!(!prefix_leads_in(&vec![PathPart::RootDir, name("a"), name("b"), prefix("C:")]));
}
