use path_abs::abs::PathAbs;
use path_abs::discover::{discover_paths, sort_paths, was_visited, FoundPaths, WalkEntry};

fn abs(s: &str) -> PathAbs {
    PathAbs::mock(s.as_bytes())
}

fn entry(path: &str, depth: usize, is_dir: bool) -> WalkEntry {
    WalkEntry {
        path: abs(path),
        depth,
        is_dir,
    }
}

/// The walk of a tree that holds `f1`, `dir1/{f1, f2}` and `dir2/{f1}`.
fn tree(root: &str) -> Vec<WalkEntry> {
    vec![
        entry(root, 0, true),
        entry(&format!("{}/dir2", root), 1, true),
        entry(&format!("{}/dir2/f1", root), 2, false),
        entry(&format!("{}/f1", root), 1, false),
        entry(&format!("{}/dir1", root), 1, true),
        entry(&format!("{}/dir1/f2", root), 2, false),
        entry(&format!("{}/dir1/f1", root), 2, false),
    ]
}

fn sorted(mut paths: Vec<PathAbs>) -> Vec<PathAbs> {
    sort_paths(&mut paths);
    paths
}

#[test]
fn sanity_path_abs() {
    let tmp = "/target/path-abs-0";
    let f1 = format!("{}/f1", tmp);
    let dir1 = format!("{}/dir1", tmp);
    let d1_f1 = format!("{}/f1", dir1);
    let d1_f2 = format!("{}/f2", dir1);
    let dir2 = format!("{}/dir2", tmp);
    let d2_f1 = format!("{}/f1", dir2);

    let dirs = sorted(vec![abs(&dir1), abs(&dir2)]);
    let files = sorted(vec![abs(&f1), abs(&d1_f1), abs(&d1_f2), abs(&d2_f1)]);

    let f1_abs = abs(&f1);
    let d1_f2_abs = abs(&d1_f2);
    let tmp_abs = abs(tmp);

    let mut expected_dirs = dirs.clone();
    expected_dirs.push(tmp_abs.clone());
    let expected_dirs = sorted(expected_dirs);

    let walk = tree(tmp);

    {
        let mut found = discover_paths(&walk, &|_: &PathAbs| true, &[]);
        found.sort();
        assert_eq!(found.files, files);
        assert_eq!(found.dirs, expected_dirs);
    }

    {
        let visited: Vec<PathAbs> = dirs.iter().map(|p| p.clone()).collect();
        let found = discover_paths(&walk, &|_: &PathAbs| true, &visited);
        assert_eq!(found.files, &[f1_abs.clone()]);
        assert_eq!(found.dirs, &[tmp_abs.clone()]);
    }

    {
        let filter = |p: &PathAbs| !p.as_path().ends_with(b"/f1");
        let mut found = discover_paths(&walk, &filter, &[]);
        found.sort();
        assert_eq!(found.files, &[d1_f2_abs.clone()]);
        assert_eq!(found.dirs, expected_dirs);
    }
}

#[test]
fn discover_keeps_the_order_of_the_walk() {
    let found = discover_paths(&tree("/r"), &|_: &PathAbs| true, &[]);
    assert_eq!(
        found.dirs,
        vec![abs("/r"), abs("/r/dir2"), abs("/r/dir1")]
    );
    assert_eq!(
        found.files,
        vec![
            abs("/r/dir2/f1"),
            abs("/r/f1"),
            abs("/r/dir1/f2"),
            abs("/r/dir1/f1")
        ]
    );
}

#[test]
fn discover_passes_over_visited_directories() {
    let visited = vec![abs("/r/dir2")];
    let found = discover_paths(&tree("/r"), &|_: &PathAbs| true, &visited);
    assert_eq!(found.dirs, vec![abs("/r"), abs("/r/dir1")]);
    assert_eq!(
        found.files,
        vec![abs("/r/f1"), abs("/r/dir1/f2"), abs("/r/dir1/f1")]
    );
}

#[test]
fn discover_of_visited_root_finds_nothing() {
    let visited = vec![abs("/r")];
    let found = discover_paths(&tree("/r"), &|_: &PathAbs| true, &visited);
    assert_eq!(found, FoundPaths::new());
}

#[test]
fn discover_leaves_out_visited_files() {
    let visited = vec![abs("/r/f1")];
    let found = discover_paths(&tree("/r"), &|_: &PathAbs| true, &visited);
    assert_eq!(
        found.files,
        vec![abs("/r/dir2/f1"), abs("/r/dir1/f2"), abs("/r/dir1/f1")]
    );
    assert_eq!(found.dirs.len(), 3);
}

#[test]
fn discover_filter_never_touches_directories() {
    let all = discover_paths(&tree("/r"), &|_: &PathAbs| true, &[]);
    let none = discover_paths(&tree("/r"), &|_: &PathAbs| false, &[]);
    assert_eq!(none.dirs, all.dirs);
    assert!(none.files.is_empty());
}

#[test]
fn discover_skips_nested_content_only() {
    let walk = vec![
        entry("/r", 0, true),
        entry("/r/a", 1, true),
        entry("/r/a/b", 2, true),
        entry("/r/a/b/f", 3, false),
        entry("/r/a/g", 2, false),
        entry("/r/h", 1, false),
    ];
    let found = discover_paths(&walk, &|_: &PathAbs| true, &[abs("/r/a/b")]);
    assert_eq!(found.dirs, vec![abs("/r"), abs("/r/a")]);
    assert_eq!(found.files, vec![abs("/r/a/g"), abs("/r/h")]);
    let found = discover_paths(&walk, &|_: &PathAbs| true, &[abs("/r/a")]);
    assert_eq!(found.dirs, vec![abs("/r")]);
    assert_eq!(found.files, vec![abs("/r/h")]);
}

#[test]
fn discover_of_empty_walk() {
    let found = discover_paths(&[], &|_: &PathAbs| true, &[]);
    assert!(found.files.is_empty());
    assert!(found.dirs.is_empty());
}

#[test]
fn visit_says_when_to_skip() {
    let mut found = FoundPaths::new();
    let visited = vec![abs("/r/seen"), abs("/r/old")];
    let all = |_: &PathAbs| true;
    assert!(found.visit(&entry("/r/seen", 1, true), &all, &visited));
    assert!(!found.visit(&entry("/r/old", 1, false), &all, &visited));
    assert_eq!(found, FoundPaths::new());
    assert!(!found.visit(&entry("/r/new", 1, true), &all, &visited));
    assert!(!found.visit(&entry("/r/file", 1, false), &all, &visited));
    assert!(!found.visit(&entry("/r/no", 1, false), &|_: &PathAbs| false, &visited));
    assert_eq!(found.dirs, vec![abs("/r/new")]);
    assert_eq!(found.files, vec![abs("/r/file")]);
}

#[test]
fn was_visited_compares_texts() {
    let visited = vec![abs("/a"), abs("/b")];
    assert!(was_visited(&visited, &abs("/b")));
    assert!(!was_visited(&visited, &abs("/c")));
    assert!(!was_visited(&[], &abs("/a")));
}

#[test]
fn found_paths_sort_orders_both() {
    let mut found = FoundPaths {
        files: vec![abs("/b"), abs("/a/z"), abs("/a"), abs("/a.b")],
        dirs: vec![abs("/d2"), abs("/d1"), abs("/d1")],
    };
    found.sort();
    assert_eq!(
        found.files,
        vec![abs("/a"), abs("/a.b"), abs("/a/z"), abs("/b")]
    );
    assert_eq!(found.dirs, vec![abs("/d1"), abs("/d1"), abs("/d2")]);
}

#[test]
fn sort_paths_of_nothing_and_one() {
    let mut none: Vec<PathAbs> = vec![];
    sort_paths(&mut none);
    assert!(none.is_empty());
    let mut one = vec![abs("/x")];
    sort_paths(&mut one);
    assert_eq!(one, vec![abs("/x")]);
}

#[test]
fn sort_paths_agrees_with_derived_order() {
    let mut ours = vec![
        abs("/b/c"),
        abs("/a"),
        abs("/b"),
        abs("/a/b/c"),
        abs("/a.b"),
        abs("/"),
        abs("/a/b"),
    ];
    let mut theirs = ours.clone();
    sort_paths(&mut ours);
    theirs.sort();
    assert_eq!(ours, theirs);
}
