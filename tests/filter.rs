use shiwakekun::filter::{filter_files, is_excluded, is_under_category_folder};

fn strings(items: &[&str]) -> Vec<String> {
    items.iter().map(|s| s.to_string()).collect()
}

fn names() -> Vec<String> {
    strings(&["Images", "Documents", "Others"])
}

#[test]
fn filter_keeps_files_outside_every_output_root() {
    let files = strings(&["/in/a.jpg", "/in/Images/b.png", "/output/Images/c.jpg", "rel/Images/d"]);
    let roots = strings(&["/out"]);
    assert_eq!(filter_files(&files, &roots, &names()), files);
}

#[test]
fn filter_drops_files_in_category_folders() {
    let files = strings(&["/out/Images/a.jpg", "/out/Others/x", "/out/Documents/sub/b.txt"]);
    let roots = strings(&["/out"]);
    assert!(filter_files(&files, &roots, &names()).is_empty());
}

#[test]
fn filter_keeps_files_in_other_folders_of_the_root() {
    let files = strings(&[
        "/out/Images/a.jpg",
        "/out/Misc/a.jpg",
        "/out/b.jpg",
        "/out/images/c.jpg",
        "/in/d.txt",
    ]);
    let roots = strings(&["/out"]);
    assert_eq!(
        filter_files(&files, &roots, &names()),
        strings(&["/out/Misc/a.jpg", "/out/b.jpg", "/out/images/c.jpg", "/in/d.txt"])
    );
}

#[test]
fn filter_with_output_nested_in_input() {
    let files = strings(&["/data/a.jpg", "/data/sorted/Images/a.jpg", "/data/sorted/new.txt"]);
    let roots = strings(&["/data/sorted"]);
    assert_eq!(
        filter_files(&files, &roots, &names()),
        strings(&["/data/a.jpg", "/data/sorted/new.txt"])
    );
}

#[test]
fn filter_compares_whole_components() {
    assert!(!is_under_category_folder("/output/Images/a.jpg", "/out", &names()));
    assert!(is_under_category_folder("/out//Images/a.jpg", "/out/", &names()));
    assert!(!is_under_category_folder("out/Images/a.jpg", "/out", &names()));
    assert!(!is_under_category_folder("/out/Images", "/out/Images", &names()));
}

#[test]
fn excluded_under_any_root() {
    let roots = strings(&["/a", "/b"]);
    assert!(is_excluded("/b/Others/x", &roots, &names()));
    assert!(!is_excluded("/c/Others/x", &roots, &names()));
    assert!(!is_excluded("/b/Others/x", &Vec::new(), &names()));
}

#[test]
fn leading_current_dir_is_a_component() {
    assert!(!is_under_category_folder("./out/Images/x", "out", &names()));
    assert!(is_under_category_folder("./out/Images/x", "./out", &names()));
    assert!(!is_under_category_folder("out/Images/x", "./out", &names()));
}
