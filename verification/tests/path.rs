use stagix::path::{components, display_name, lies_below, stem, to_index_root};
use stagix::to_root_path;

#[test]
fn components_follow_unix_rules() {
    assert_eq!(components("a/b/c"), vec!["a", "b", "c"]);
    assert_eq!(components("/a//b/"), vec!["/", "a", "b"]);
    assert_eq!(components("./a/./b"), vec![".", "a", "b"]);
    assert_eq!(components("a/../b"), vec!["a", "..", "b"]);
    assert_eq!(components(""), Vec::<String>::new());
    assert_eq!(components("/"), vec!["/"]);
    assert_eq!(components("/."), vec!["/"]);
}

#[test]
fn components_agree_with_the_standard_library() {
    for path in ["a/b", "/x/y/", "./a", "a/./b/.", "//a", "", ".", "..", "docs/site"] {
        let expected: Vec<String> = std::path::Path::new(path)
            .components()
            .map(|c| c.as_os_str().to_string_lossy().into_owned())
            .collect();
        assert_eq!(components(path), expected, "{path}");
    }
}

#[test]
fn root_prefix_counts_directories() {
    assert_eq!(to_root_path("out/log.html", "out"), "");
    assert_eq!(to_root_path("out/files/a.html", "out"), "../");
    assert_eq!(to_root_path("out/files/src/bin/a.rs.html", "out"), "../../../");
    assert_eq!(to_root_path("out", "out"), "");
    assert_eq!(to_root_path("commits/abc.html", ""), "../");
}

#[test]
fn index_prefix_is_one_step_more() {
    for page in ["log.html", "files/a.html", "files/a/b/c.html"] {
        let to_repo = to_root_path(page, "");
        assert_eq!(to_index_root(&to_repo), format!("../{to_repo}"));
    }
    assert_eq!(to_index_root(""), "../");
    assert_eq!(to_index_root("../../"), "../../../");
}

#[test]
fn lies_below_compares_whole_components() {
    assert!(lies_below("out/files/a.html", "out"));
    assert!(lies_below("out//files", "out/"));
    assert!(!lies_below("output/files", "out"));
    assert!(!lies_below("out", "out/files"));
    assert!(lies_below("anything", ""));
}

#[test]
fn stem_drops_the_extension() {
    assert_eq!(stem("repo.git"), "repo");
    assert_eq!(stem("repo"), "repo");
    assert_eq!(stem(".gitignore"), ".gitignore");
    assert_eq!(stem("a.b.c"), "a.b");
    assert_eq!(stem("name."), "name");
    assert_eq!(stem(""), "");
}

#[test]
fn display_name_is_the_last_component_without_extension() {
    assert_eq!(display_name("/srv/git/stagix.git"), Some("stagix".to_string()));
    assert_eq!(display_name("/srv/git/stagix/"), Some("stagix".to_string()));
    assert_eq!(display_name("/"), None);
    assert_eq!(display_name(""), None);
    assert_eq!(display_name("a/.."), None);
    assert_eq!(display_name("src/main.rs.html"), Some("main.rs".to_string()));
}
