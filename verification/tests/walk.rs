use std::path::PathBuf;
use clap_wrapper::walk::{DirEntryInfo, DirWalk};

fn entry(path: &str, name: &str, is_dir: bool) -> DirEntryInfo<String> {
    DirEntryInfo { path: path.to_string(), name: name.to_string(), is_dir }
}

#[test]
fn walk_starts_at_root() {
    let mut w = DirWalk::new("/r".to_string(), "cpp".to_string());
    assert_eq!(w.next_dir(), Some("/r".to_string()));
    assert_eq!(w.next_dir(), None);
    assert!(w.found.is_empty());
}

#[test]
fn walk_collects_matching_files_only() {
    let mut w = DirWalk::new("/r".to_string(), "cpp".to_string());
    let top = w.next_dir().unwrap();
    assert_eq!(top, "/r");
    w.visit(vec![
        entry("/r/a.cpp", "a.cpp", false),
        entry("/r/sub", "sub", true),
        entry("/r/b.h", "b.h", false),
        entry("/r/odd.cpp", "odd.cpp", true),
        entry("/r/.cpp", ".cpp", false),
        entry("/r/c.cpp", "c.cpp", false),
    ]);
    assert_eq!(w.found, vec!["/r/a.cpp".to_string(), "/r/c.cpp".to_string()]);
    assert_eq!(w.pending, vec!["/r/sub".to_string(), "/r/odd.cpp".to_string()]);
}

#[test]
fn walk_lists_last_pushed_directory_first() {
    let mut w = DirWalk::new("/r".to_string(), "cpp".to_string());
    w.next_dir();
    w.visit(vec![entry("/r/x", "x", true), entry("/r/y", "y", true)]);
    assert_eq!(w.next_dir(), Some("/r/y".to_string()));
    w.visit(vec![entry("/r/y/1.cpp", "1.cpp", false)]);
    assert_eq!(w.next_dir(), Some("/r/x".to_string()));
    w.visit(vec![entry("/r/x/2.cpp", "2.cpp", false), entry("/r/x/3.c", "3.c", false)]);
    assert_eq!(w.next_dir(), None);
    assert_eq!(w.found, vec!["/r/y/1.cpp".to_string(), "/r/x/2.cpp".to_string()]);
}

#[test]
fn walk_with_empty_listing() {
    let mut w = DirWalk::new("/r".to_string(), "cpp".to_string());
    w.next_dir();
    w.visit(Vec::new());
    assert!(w.pending.is_empty());
    assert!(w.found.is_empty());
    assert_eq!(w.ext, "cpp");
}

#[test]
fn walk_keeps_paths_as_given() {
    let mut w = DirWalk::new(PathBuf::from("/r"), "cpp".to_string());
    let top = w.next_dir().unwrap();
    assert_eq!(top, PathBuf::from("/r"));
    w.visit(vec![
        DirEntryInfo { path: PathBuf::from("/r/a.cpp"), name: "a.cpp".to_string(), is_dir: false },
        DirEntryInfo { path: PathBuf::from("/r/d"), name: "d".to_string(), is_dir: true },
    ]);
    assert_eq!(w.found, vec![PathBuf::from("/r/a.cpp")]);
    assert_eq!(w.pending, vec![PathBuf::from("/r/d")]);
}

#[test]
fn walk_run_to_end_visits_tree_depth_first() {
    // root: a.cpp, x/ (x/1.cpp, x/deep/ (x/deep/2.cpp)), b.h, y/ (y/3.cpp), c.cpp
    let listing = |dir: &str| -> Vec<DirEntryInfo<String>> {
        match dir {
            "/r" => vec![
                entry("/r/a.cpp", "a.cpp", false),
                entry("/r/x", "x", true),
                entry("/r/b.h", "b.h", false),
                entry("/r/y", "y", true),
                entry("/r/c.cpp", "c.cpp", false),
            ],
            "/r/x" => vec![entry("/r/x/1.cpp", "1.cpp", false), entry("/r/x/deep", "deep", true)],
            "/r/x/deep" => vec![entry("/r/x/deep/2.cpp", "2.cpp", false)],
            "/r/y" => vec![entry("/r/y/3.cpp", "3.cpp", false)],
            _ => panic!("no such directory"),
        }
    };
    let mut w = DirWalk::new("/r".to_string(), "cpp".to_string());
    let mut order = Vec::new();
    while let Some(dir) = w.next_dir() {
        order.push(dir.clone());
        w.visit(listing(&dir));
    }
    assert_eq!(order, vec!["/r", "/r/y", "/r/x", "/r/x/deep"]);
    assert_eq!(
        w.found,
        vec!["/r/a.cpp", "/r/c.cpp", "/r/y/3.cpp", "/r/x/1.cpp", "/r/x/deep/2.cpp"]
    );
}
