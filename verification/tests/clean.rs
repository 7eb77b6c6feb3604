use path_abs::clean::{clean_components, clean_path};
use path_abs::component::Component;

fn clean(path: &str) -> String {
    String::from_utf8(clean_path(path.as_bytes())).unwrap()
}

#[test]
fn clean_resolves_dot_and_dot_dot() {
    assert_eq!(
        clean("/recipes/./snacks/../desserts/banana_creme_pie.txt"),
        "/recipes/desserts/banana_creme_pie.txt"
    );
}

#[test]
fn clean_keeps_leading_parents_and_drops_extra_separators() {
    assert_eq!(
        clean("../.././lots///of////./separators/"),
        "../../lots/of/separators"
    );
}

#[test]
fn clean_cannot_go_above_root() {
    assert_eq!(clean("/../../../cannot_go_above_root"), "/cannot_go_above_root");
    assert_eq!(clean("/../../../x"), "/x");
}

#[test]
fn clean_of_nothing_is_dot() {
    assert_eq!(clean(""), ".");
    assert_eq!(clean("."), ".");
    assert_eq!(clean("./"), ".");
    assert_eq!(clean("././."), ".");
    assert_eq!(clean("a/.."), ".");
}

#[test]
fn clean_second_parent_has_nothing_to_cancel() {
    assert_eq!(clean("a/../../b"), "../b");
}

#[test]
fn clean_drops_dots_and_trailing_separator() {
    assert_eq!(clean("./a/./b/"), "a/b");
}

#[test]
fn clean_root_alone() {
    assert_eq!(clean("/"), "/");
    assert_eq!(clean("//"), "/");
    assert_eq!(clean("/.."), "/");
    assert_eq!(clean("/."), "/");
}

#[test]
fn clean_is_idempotent_on_samples() {
    let samples = [
        "",
        ".",
        "..",
        "/",
        "a",
        "a/b/../../..",
        "/a/./b/../c//",
        "../../x/./y/..",
        "./..",
        "...",
        "a/.../b",
        "/..a/b../..",
    ];
    for s in samples.iter() {
        let once = clean(s);
        let twice = clean(&once);
        assert_eq!(once, twice);
        assert!(!once.is_empty());
    }
}

#[test]
fn clean_components_keeps_parent_on_prefix() {
    let cs = vec![
        Component::Prefix(b"C:".to_vec()),
        Component::ParentDir,
        Component::Normal(b"a".to_vec()),
        Component::ParentDir,
    ];
    let cleaned = clean_components(&cs);
    assert_eq!(
        cleaned,
        vec![Component::Prefix(b"C:".to_vec()), Component::ParentDir]
    );
}

#[test]
fn clean_components_of_dots_is_dot() {
    let cs = vec![Component::CurDir, Component::CurDir];
    assert_eq!(clean_components(&cs), vec![Component::CurDir]);
    assert_eq!(clean_components(&[]), vec![Component::CurDir]);
}
