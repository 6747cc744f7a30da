use serve::fs::FilePath;

fn path(components: &[&str]) -> FilePath {
    FilePath { components: components.iter().map(|c| c.to_string()).collect() }
}

#[test]
fn a_path_starts_with_itself_and_its_ancestors() {
    let file = path(&["/", "srv", "www", "a.txt"]);
    assert!(file.starts_with(&path(&["/", "srv", "www", "a.txt"])));
    assert!(file.starts_with(&path(&["/", "srv", "www"])));
    assert!(file.starts_with(&path(&["/"])));
    assert!(file.starts_with(&path(&[])));
}

#[test]
fn a_path_does_not_start_with_a_sibling_or_a_descendant() {
    let file = path(&["/", "srv", "www", "a.txt"]);
    assert!(!file.starts_with(&path(&["/", "srv", "ww"])));
    assert!(!file.starts_with(&path(&["/", "srv", "www2"])));
    assert!(!file.starts_with(&path(&["/", "etc"])));
    assert!(!file.starts_with(&path(&["/", "srv", "www", "a.txt", "b"])));
    assert!(!path(&["/", "srv", "wwwroot"]).starts_with(&path(&["/", "srv", "www"])));
}

#[test]
fn join_adds_one_component() {
    assert_eq!(path(&["/", "srv"]).join("index.html"), path(&["/", "srv", "index.html"]));
    assert_eq!(path(&[]).join("a"), path(&["a"]));
}

#[test]
fn extension_is_what_follows_the_last_dot() {
    assert_eq!(path(&["/", "a", "index.html"]).extension(), Some("html".to_string()));
    assert_eq!(path(&["/", "a", "archive.tar.gz"]).extension(), Some("gz".to_string()));
    assert_eq!(path(&["/", "a.d", "readme"]).extension(), None);
    assert_eq!(path(&["/", "a", "trailing."]).extension(), Some(String::new()));
    assert_eq!(path(&["/", "a", ".hidden.txt"]).extension(), Some("txt".to_string()));
}

#[test]
fn some_names_have_no_extension() {
    assert_eq!(path(&[]).extension(), None);
    assert_eq!(path(&["/"]).extension(), None);
    assert_eq!(path(&["/", "a", "readme"]).extension(), None);
    assert_eq!(path(&["/", "a", ".bashrc"]).extension(), None);
    assert_eq!(path(&["/", "a", ".."]).extension(), None);
    assert_eq!(path(&["/", "a", "."]).extension(), None);
    assert_eq!(path(&["/", "a", ""]).extension(), None);
}

#[test]
fn extension_agrees_with_the_standard_library() {
    for name in ["a.txt", "a", ".a", "a.", "..", "...", "a..b", ".a.b", "a.b.c", "", "."] {
        let expected = std::path::Path::new(name)
            .extension()
            .map(|e| e.to_str().unwrap().to_string());
        // `Path` drops a lone dot and reads an empty name as no name at all.
        if name == "." || name.is_empty() {
            continue;
        }
        assert_eq!(path(&["/", name]).extension(), expected, "{name:?}");
    }
}

#[test]
fn a_copy_of_a_path_holds_the_same_components() {
    let file = path(&["/", "srv", "www", "a.txt"]);
    assert_eq!(file.clone(), file);
}
