use shiwakekun::path::{dotted_extension_of, file_name_of, join_path, segments_of, stem_and_extension};

fn strings(items: &[&str]) -> Vec<String> {
    items.iter().map(|s| s.to_string()).collect()
}

#[test]
fn segments_skip_empty_and_current_dir_pieces() {
    assert_eq!(segments_of("/a//b/./c/"), strings(&["a", "b", "c"]));
    assert_eq!(segments_of("x/../y"), strings(&["x", "..", "y"]));
    assert!(segments_of("/").is_empty());
    assert!(segments_of("").is_empty());
}

#[test]
fn file_name_is_last_component() {
    assert_eq!(file_name_of("/in/photos/a.jpg"), Some("a.jpg".to_string()));
    assert_eq!(file_name_of("/in/photos/"), Some("photos".to_string()));
    assert_eq!(file_name_of("b.txt"), Some("b.txt".to_string()));
    assert_eq!(file_name_of("/"), None);
    assert_eq!(file_name_of(""), None);
    assert_eq!(file_name_of("/in/.."), None);
}

#[test]
fn stem_and_extension_split_at_last_dot() {
    assert_eq!(
        stem_and_extension("archive.tar.gz"),
        ("archive.tar".to_string(), Some("gz".to_string()))
    );
    assert_eq!(stem_and_extension("a.jpg"), ("a".to_string(), Some("jpg".to_string())));
    assert_eq!(stem_and_extension(".bashrc"), (".bashrc".to_string(), None));
    assert_eq!(stem_and_extension("README"), ("README".to_string(), None));
    assert_eq!(stem_and_extension("a."), ("a".to_string(), Some(String::new())));
}

#[test]
fn dotted_extension_of_paths() {
    assert_eq!(dotted_extension_of("/x/a.JPG"), ".JPG");
    assert_eq!(dotted_extension_of("/x/README"), "");
    assert_eq!(dotted_extension_of("/x/.hidden"), "");
    assert_eq!(dotted_extension_of("c.unknownext"), ".unknownext");
    assert_eq!(dotted_extension_of("/"), "");
}

#[test]
fn join_inserts_one_separator() {
    assert_eq!(join_path("/out", "Images"), "/out/Images");
    assert_eq!(join_path("/out/", "Images"), "/out/Images");
    assert_eq!(join_path("", "Images"), "Images");
    assert_eq!(join_path("/out", "/abs"), "/abs");
}

#[test]
fn leading_current_dir_is_kept() {
    assert_eq!(segments_of("./a/b"), strings(&[".", "a", "b"]));
    assert_eq!(segments_of("."), strings(&["."]));
    assert_eq!(segments_of("/./a"), strings(&["a"]));
    assert_eq!(segments_of("a/./b"), strings(&["a", "b"]));
    assert_eq!(segments_of(".hidden/x"), strings(&[".hidden", "x"]));
    assert_eq!(file_name_of("."), None);
    assert_eq!(file_name_of("./a.txt"), Some("a.txt".to_string()));
}
