use path_abs::arc::{bytes_eq, PathArc};
use path_abs::component::Component;
use path_abs::lexical::{components, push_bytes, render};
use path_abs::order::bytes_le;
use path_abs::resolve::{canonicalize_parent, canonicalize_target, split_file_name};
use path_abs::error::{Action, ErrorKind, IoFailure};

fn normal(name: &str) -> Component {
    Component::Normal(name.as_bytes().to_vec())
}

fn from_std(path: &str) -> Vec<Component> {
    std::path::Path::new(path)
        .components()
        .map(|c| match c {
            std::path::Component::Prefix(p) => {
                Component::Prefix(p.as_os_str().to_str().unwrap().as_bytes().to_vec())
            }
            std::path::Component::RootDir => Component::RootDir,
            std::path::Component::CurDir => Component::CurDir,
            std::path::Component::ParentDir => Component::ParentDir,
            std::path::Component::Normal(n) => {
                Component::Normal(n.to_str().unwrap().as_bytes().to_vec())
            }
        })
        .collect()
}

const SAMPLES: [&str; 22] = [
    "",
    ".",
    "..",
    "/",
    "//",
    "a",
    "a/",
    "a/b",
    "a//b",
    "a/./b",
    "a/b/.",
    "./a/b",
    "././a",
    "/a/b/",
    "/./a",
    "/../a",
    "a/../b",
    "...",
    ".a",
    "a.",
    "..a/b..",
    "/a/./../b//c/.",
];

#[test]
fn components_of_absolute_path() {
    assert_eq!(
        components(b"/a/b"),
        vec![Component::RootDir, normal("a"), normal("b")]
    );
}

#[test]
fn components_ignore_repeated_and_trailing_separators() {
    assert_eq!(components(b"a//b/"), vec![normal("a"), normal("b")]);
    assert_eq!(components(b"//"), vec![Component::RootDir]);
}

#[test]
fn components_keep_only_a_leading_dot() {
    assert_eq!(
        components(b"./a/./b/."),
        vec![Component::CurDir, normal("a"), normal("b")]
    );
    assert_eq!(components(b"/./a"), vec![Component::RootDir, normal("a")]);
    assert_eq!(components(b"."), vec![Component::CurDir]);
}

#[test]
fn components_keep_parent_dirs() {
    assert_eq!(
        components(b"a/../b"),
        vec![normal("a"), Component::ParentDir, normal("b")]
    );
    assert_eq!(components(b".."), vec![Component::ParentDir]);
    assert_eq!(components(b"..."), vec![normal("...")]);
}

#[test]
fn components_of_empty_path() {
    assert_eq!(components(b""), Vec::<Component>::new());
}

#[test]
fn components_agree_with_std_paths() {
    for s in SAMPLES.iter() {
        assert_eq!(components(s.as_bytes()), from_std(s), "{:?}", s);
    }
}

#[test]
fn push_agrees_with_std_paths() {
    for base in SAMPLES.iter() {
        for ext in SAMPLES.iter() {
            let mut buf = base.as_bytes().to_vec();
            push_bytes(&mut buf, ext.as_bytes());
            let mut std_buf = std::path::PathBuf::from(base);
            std_buf.push(ext);
            assert_eq!(
                String::from_utf8(buf).unwrap(),
                std_buf.to_str().unwrap(),
                "{:?} {:?}",
                base,
                ext
            );
        }
    }
}

#[test]
fn push_puts_one_separator() {
    let mut buf = b"a".to_vec();
    push_bytes(&mut buf, b"b");
    assert_eq!(buf, b"a/b");
    let mut buf = b"a/".to_vec();
    push_bytes(&mut buf, b"b");
    assert_eq!(buf, b"a/b");
    let mut buf = b"".to_vec();
    push_bytes(&mut buf, b"b");
    assert_eq!(buf, b"b");
    let mut buf = b"a".to_vec();
    push_bytes(&mut buf, b"");
    assert_eq!(buf, b"a/");
}

#[test]
fn push_of_rooted_path_replaces() {
    let mut buf = b"a/b".to_vec();
    push_bytes(&mut buf, b"/c");
    assert_eq!(buf, b"/c");
}

#[test]
fn render_spells_components() {
    assert_eq!(
        render(&vec![Component::RootDir, normal("a"), normal("b")]),
        b"/a/b"
    );
    assert_eq!(
        render(&vec![Component::ParentDir, Component::ParentDir, normal("x")]),
        b"../../x"
    );
    assert_eq!(render(&vec![Component::CurDir]), b".");
    assert_eq!(render(&vec![]), b"");
}

#[test]
fn render_undoes_components() {
    for s in ["/a/b", "a/b", "../a", "./a", ".", "/", "..", "a/../b", ""].iter() {
        assert_eq!(render(&components(s.as_bytes())), s.as_bytes(), "{:?}", s);
    }
}

#[test]
fn components_undo_render() {
    for s in SAMPLES.iter() {
        let cs = components(s.as_bytes());
        assert_eq!(components(&render(&cs)), cs, "{:?}", s);
    }
}

#[test]
fn arc_keeps_its_text() {
    let p = PathArc::new(b"some//path/.");
    assert_eq!(p.as_path(), b"some//path/.");
    assert_eq!(p.clone().as_path(), b"some//path/.");
    assert_eq!(PathArc::from_vec(b"x".to_vec()).as_path(), b"x");
    assert!(p.same(&PathArc::new(b"some//path/.")));
    assert!(!p.same(&PathArc::new(b"some/path")));
}

#[test]
fn bytes_eq_compares_every_byte() {
    assert!(bytes_eq(b"", b""));
    assert!(bytes_eq(b"abc", b"abc"));
    assert!(!bytes_eq(b"abc", b"abd"));
    assert!(!bytes_eq(b"abc", b"ab"));
}

#[test]
fn arc_join_is_lexical() {
    assert_eq!(PathArc::new(b"/a").join(b"b/c").as_path(), b"/a/b/c");
    assert_eq!(PathArc::new(b"/a/").join(b"../c").as_path(), b"/a/../c");
    assert_eq!(PathArc::new(b"/a").join(b"/c").as_path(), b"/c");
    assert_eq!(PathArc::new(b"").join(b"c").as_path(), b"c");
}

#[test]
fn arc_components() {
    assert_eq!(
        PathArc::new(b"/x/../y").components(),
        vec![
            Component::RootDir,
            normal("x"),
            Component::ParentDir,
            normal("y")
        ]
    );
}

#[test]
fn arc_parent() {
    let parent = |s: &str| {
        PathArc::new(s.as_bytes())
            .parent()
            .map(|p| String::from_utf8(p.as_path().to_vec()).unwrap())
    };
    assert_eq!(parent("/a/b"), Some("/a".to_string()));
    assert_eq!(parent("/a"), Some("/".to_string()));
    assert_eq!(parent("/"), None);
    assert_eq!(parent(""), None);
    assert_eq!(parent("a"), Some("".to_string()));
    assert_eq!(parent("a/b/"), Some("a".to_string()));
    assert_eq!(parent("./a"), Some(".".to_string()));
    assert_eq!(parent("/.."), Some("/".to_string()));
    assert_eq!(parent("a/.."), Some("a".to_string()));
    assert_eq!(parent("."), Some("".to_string()));
    assert_eq!(parent("a//b/./c"), Some("a/b".to_string()));
}

#[test]
fn arc_parent_agrees_with_std_on_plain_paths() {
    for s in ["/a/b", "/a", "/", "", "a", "a/b", "./a", "/..", "a/..", "../a", "."].iter() {
        let ours = PathArc::new(s.as_bytes())
            .parent()
            .map(|p| String::from_utf8(p.as_path().to_vec()).unwrap());
        let theirs = std::path::Path::new(s)
            .parent()
            .map(|p| p.to_str().unwrap().to_string());
        assert_eq!(ours, theirs, "{:?}", s);
    }
}

#[test]
fn arc_file_name() {
    let name = |s: &str| PathArc::new(s.as_bytes()).file_name();
    assert_eq!(name("/a/b"), Some(b"b".to_vec()));
    assert_eq!(name("a/b/"), Some(b"b".to_vec()));
    assert_eq!(name("a/b/."), Some(b"b".to_vec()));
    assert_eq!(name("a/.."), None);
    assert_eq!(name("/"), None);
    assert_eq!(name(""), None);
    assert_eq!(name("."), None);
    assert_eq!(name("/.."), None);
}

#[test]
fn arc_file_name_agrees_with_std_paths() {
    for s in SAMPLES.iter() {
        let ours = PathArc::new(s.as_bytes()).file_name();
        let theirs = std::path::Path::new(s)
            .file_name()
            .map(|n| n.to_str().unwrap().as_bytes().to_vec());
        assert_eq!(ours, theirs, "{:?}", s);
    }
}

#[test]
fn arc_with_file_name() {
    let with = |s: &str, n: &str| {
        String::from_utf8(
            PathArc::new(s.as_bytes())
                .with_file_name(n.as_bytes())
                .as_path()
                .to_vec(),
        )
        .unwrap()
    };
    assert_eq!(with("/a/link", "target"), "/a/target");
    assert_eq!(with("/a/link", "../x"), "/a/../x");
    assert_eq!(with("/a/link", "/etc/x"), "/etc/x");
    assert_eq!(with("/", "x"), "/x");
    assert_eq!(with("a/..", "x"), "a/../x");
    assert_eq!(with("a", "x"), "x");
}

#[test]
fn split_file_name_needs_a_name() {
    let split = |s: &str| {
        split_file_name(s.as_bytes()).map(|(p, n)| {
            (
                String::from_utf8(p.as_path().to_vec()).unwrap(),
                String::from_utf8(n).unwrap(),
            )
        })
    };
    assert_eq!(split("/a/b"), Some(("/a".to_string(), "b".to_string())));
    assert_eq!(split("b"), Some(("".to_string(), "b".to_string())));
    assert_eq!(split("/b"), Some(("/".to_string(), "b".to_string())));
    assert_eq!(split("/"), None);
    assert_eq!(split("/.."), None);
    assert_eq!(split("a/.."), None);
    assert_eq!(split(""), None);
    assert_eq!(split("."), None);
}

#[test]
fn canonicalize_target_is_parent_or_whole() {
    assert_eq!(canonicalize_target(b"/a/b").as_path(), b"/a");
    assert_eq!(canonicalize_target(b"/a/..").as_path(), b"/a/..");
    assert_eq!(canonicalize_target(b"/").as_path(), b"/");
    assert_eq!(canonicalize_target(b"x").as_path(), b"");
}

#[test]
fn canonicalize_parent_puts_the_name_back() {
    let r = canonicalize_parent(b"link/../dir/name", Ok(PathArc::new(b"/real/dir")));
    assert_eq!(r.unwrap().as_path(), b"/real/dir/name");
}

#[test]
fn canonicalize_parent_without_name_takes_the_answer() {
    let r = canonicalize_parent(b"/a/..", Ok(PathArc::new(b"/")));
    assert_eq!(r.unwrap().as_path(), b"/");
    let r = canonicalize_parent(b"/", Ok(PathArc::new(b"/")));
    assert_eq!(r.unwrap().as_path(), b"/");
}

#[test]
fn canonicalize_parent_reports_the_failure() {
    let io = IoFailure {
        kind: ErrorKind::NotFound,
        code: Some(2),
    };
    let e = canonicalize_parent(b"/missing/name", Err(io)).unwrap_err();
    assert_eq!(e.io, io);
    assert_eq!(e.kind(), ErrorKind::NotFound);
    assert_eq!(e.action, Action::Canonicalizing);
    assert_eq!(e.path.as_path(), b"/missing");
    let e = canonicalize_parent(b"/missing/..", Err(io)).unwrap_err();
    assert_eq!(e.path.as_path(), b"/missing/..");
}

#[test]
fn text_order_is_byte_by_byte() {
    assert!(bytes_le(b"", b""));
    assert!(bytes_le(b"", b"a"));
    assert!(!bytes_le(b"a", b""));
    assert!(bytes_le(b"a", b"a"));
    assert!(bytes_le(b"a", b"ab"));
    assert!(!bytes_le(b"ab", b"a"));
    assert!(bytes_le(b"ab", b"b"));
    assert!(!bytes_le(b"b", b"ab"));
    assert!(bytes_le(b"/a.b", b"/a/b"));
    assert!(!bytes_le(b"/a/b", b"/a.b"));
}

#[test]
fn component_text() {
    assert_eq!(Component::RootDir.to_bytes(), b"/");
    assert_eq!(Component::CurDir.to_bytes(), b".");
    assert_eq!(Component::ParentDir.to_bytes(), b"..");
    assert_eq!(normal("name").to_bytes(), b"name");
    assert_eq!(Component::Prefix(b"C:".to_vec()).to_bytes(), b"C:");
    assert_eq!(normal("name").clone(), normal("name"));
}
