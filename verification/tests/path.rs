use browser_core::path::{extension, file_name, join, normalize_path, parent, PathError};

fn some(s: &str) -> Option<String> {
    Some(s.to_string())
}

#[test]
fn join_appends_after_one_separator() {
    assert_eq!(join("/a", "b"), "/a/b");
    assert_eq!(join("/a/", "b"), "/a/b");
    assert_eq!(join("/", "b"), "/b");
    assert_eq!(join("", "b"), "b");
    assert_eq!(join("/a", "b/c"), "/a/b/c");
    assert_eq!(join("/a", ""), "/a/");
    assert_eq!(join("/a", ".."), "/a/..");
}

#[test]
fn join_with_an_absolute_path_replaces_the_base() {
    assert_eq!(join("/a", "/x"), "/x");
    assert_eq!(join("/a/b", "/"), "/");
    assert_eq!(join("", "/x/y"), "/x/y");
}

#[test]
fn file_name_is_the_last_component() {
    assert_eq!(file_name("/a/b.txt"), some("b.txt"));
    assert_eq!(file_name("/a/b/"), some("b"));
    assert_eq!(file_name("/a/b///"), some("b"));
    assert_eq!(file_name("b"), some("b"));
    assert_eq!(file_name("/a/.hidden"), some(".hidden"));
    assert_eq!(file_name("/a/..."), some("..."));
}

#[test]
fn file_name_is_missing_for_root_empty_and_dots() {
    assert_eq!(file_name("/"), None);
    assert_eq!(file_name(""), None);
    assert_eq!(file_name("///"), None);
    assert_eq!(file_name("/a/.."), None);
    assert_eq!(file_name(".."), None);
    assert_eq!(file_name("/a/../"), None);
    assert_eq!(file_name("."), None);
    assert_eq!(file_name("./"), None);
    assert_eq!(file_name("/."), None);
    assert_eq!(file_name("/./"), None);
}

#[test]
fn dot_components_at_the_end_count_for_nothing() {
    assert_eq!(file_name("/a/."), some("a"));
    assert_eq!(file_name("/a/./"), some("a"));
    assert_eq!(file_name("/a/b/././/."), some("b"));
    assert_eq!(file_name("x.png/."), some("x.png"));
    assert_eq!(file_name("/a/.b"), some(".b"));
    assert_eq!(file_name("/a/b."), some("b."));
    assert_eq!(parent("/tmp/."), some("/"));
    assert_eq!(parent("/tmp/./"), some("/"));
    assert_eq!(parent("/a/b/."), some("/a"));
    assert_eq!(parent("/a/./b"), some("/a"));
    assert_eq!(parent("./a"), some("."));
    assert_eq!(parent("."), some(""));
    assert_eq!(parent("/."), None);
    assert_eq!(parent("a/."), some(""));
}

#[test]
fn file_name_and_parent_agree_with_std() {
    let samples = [
        "", "/", "a", "/a", "/a/", "/a/b", "/a/b/", "/a/b//", "a/b", "a/b/c.txt", ".", "./", "/.",
        "..", "/..", "a/..", "/a/..", "/a/../", "/a/.", "/a/./", "/a/./b", "./a", "a/.", "x.png/.",
        "/tmp/.", "/a/b/././.", "/a/.hidden", "/a/b.", "/a/...", "/a/.../", "a/./", "/a/b/./c/.",
        "/home/u/file.tar.gz", "/a//b", "/a/b/..",
    ];
    for p in samples {
        let path = std::path::Path::new(p);
        let name = path.file_name().and_then(|n| n.to_str()).map(|n| n.to_string());
        let up = path.parent().and_then(|d| d.to_str()).map(|d| d.to_string());
        assert_eq!(file_name(p), name, "file name of {:?}", p);
        assert_eq!(parent(p), up, "parent of {:?}", p);
    }
}

#[test]
fn file_name_of_a_joined_name_is_that_name() {
    for dir in ["/", "/a", "/a/", "", "/a/b/c"] {
        for name in ["x", "x.txt", ".x", "a b", "..."] {
            assert_eq!(file_name(&join(dir, name)), some(name));
        }
    }
}

#[test]
fn parent_drops_the_last_component() {
    assert_eq!(parent("/a/b"), some("/a"));
    assert_eq!(parent("/a/b/"), some("/a"));
    assert_eq!(parent("/a"), some("/"));
    assert_eq!(parent("/a//b"), some("/a"));
    assert_eq!(parent("a/b"), some("a"));
    assert_eq!(parent("a"), some(""));
    assert_eq!(parent("/a/b/.."), some("/a/b"));
}

#[test]
fn root_and_empty_path_have_no_parent() {
    assert_eq!(parent("/"), None);
    assert_eq!(parent("//"), None);
    assert_eq!(parent(""), None);
}

#[test]
fn extension_follows_the_last_dot() {
    assert_eq!(extension("a.txt"), some("txt"));
    assert_eq!(extension("a.tar.gz"), some("gz"));
    assert_eq!(extension("a."), some(""));
    assert_eq!(extension(".a.b"), some("b"));
    assert_eq!(extension("photo.JPG"), some("JPG"));
}

#[test]
fn extension_is_missing_without_an_inner_dot() {
    assert_eq!(extension("noext"), None);
    assert_eq!(extension(".bashrc"), None);
    assert_eq!(extension(""), None);
    assert_eq!(extension("."), None);
}

#[test]
fn normalize_expands_a_leading_tilde() {
    assert_eq!(normalize_path("~/docs", Some("/home/u")), Ok("/home/u/docs".to_string()));
    assert_eq!(normalize_path("~//docs/x", Some("/home/u")), Ok("/home/u/docs/x".to_string()));
    assert_eq!(normalize_path("~", Some("/home/u")), Ok("/home/u/".to_string()));
    assert_eq!(normalize_path("~/", Some("/home/u/")), Ok("/home/u/".to_string()));
}

#[test]
fn normalize_leaves_other_paths_alone() {
    assert_eq!(normalize_path("/abs/path", Some("/home/u")), Ok("/abs/path".to_string()));
    assert_eq!(normalize_path("/abs/path", None), Ok("/abs/path".to_string()));
    assert_eq!(normalize_path("~user/x", Some("/home/u")), Ok("~user/x".to_string()));
    assert_eq!(normalize_path("a/~/b", None), Ok("a/~/b".to_string()));
    assert_eq!(normalize_path("", None), Ok(String::new()));
}

#[test]
fn normalize_fails_on_tilde_without_home() {
    assert_eq!(normalize_path("~/docs", None), Err(PathError::HomeUnknown));
    assert_eq!(normalize_path("~", None), Err(PathError::HomeUnknown));
}
