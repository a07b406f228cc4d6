use shiwakekun::destination::{destination_name, DestinationSearch};

/// Drives a search, answering from `taken` the way a file system would; with
/// `ignore_case`, the way a case-insensitive one would.
fn resolve(dir: &str, name: &str, taken: &[&str], ignore_case: bool) -> (String, Vec<String>) {
    let mut search = DestinationSearch::new(dir, name);
    let mut asked = Vec::new();
    loop {
        let c = search.candidate();
        asked.push(c.clone());
        let exists = taken
            .iter()
            .any(|t| if ignore_case { t.to_lowercase() == c.to_lowercase() } else { *t == c });
        if let Some(p) = search.record(exists) {
            return (p, asked);
        }
    }
}

#[test]
fn destination_without_collision_keeps_name() {
    let (p, asked) = resolve("/out/Images", "a.jpg", &[], false);
    assert_eq!(p, "/out/Images/a.jpg");
    assert_eq!(asked.len(), 1);
}

#[test]
fn destination_collision_appends_counter() {
    let (p, _) = resolve("/out/Images", "a.jpg", &["/out/Images/a.jpg"], false);
    assert_eq!(p, "/out/Images/a_1.jpg");
}

#[test]
fn destination_takes_first_free_counter() {
    let taken = ["/out/a.jpg", "/out/a_1.jpg", "/out/a_2.jpg", "/out/b.jpg"];
    let (p, asked) = resolve("/out", "a.jpg", &taken, false);
    assert_eq!(p, "/out/a_3.jpg");
    assert_eq!(asked, vec!["/out/a.jpg", "/out/a_1.jpg", "/out/a_2.jpg", "/out/a_3.jpg"]);
    let (p, _) = resolve("/out", "a.jpg", &["/out/a.jpg", "/out/a_2.jpg"], false);
    assert_eq!(p, "/out/a_1.jpg");
}

#[test]
fn destination_follows_the_file_systems_answer() {
    let (p, _) = resolve("/out/Images", "a.jpg", &["/out/Images/A.JPG"], true);
    assert_eq!(p, "/out/Images/a_1.jpg");
    let (p, _) = resolve("/out/Images", "a.jpg", &["/out/Images/A.JPG"], false);
    assert_eq!(p, "/out/Images/a.jpg");
}

#[test]
fn destination_counter_advances_only_when_taken() {
    let mut search = DestinationSearch::new("/out", "x.txt");
    assert_eq!(search.counter_value(), 0);
    assert_eq!(search.record(true), None);
    assert_eq!(search.counter_value(), 1);
    assert_eq!(search.candidate(), "/out/x_1.txt");
    assert_eq!(search.record(false), Some("/out/x_1.txt".to_string()));
    assert_eq!(search.counter_value(), 1);
}

#[test]
fn destination_names_are_distinct() {
    let names: Vec<String> = (0..12).map(|k| destination_name("a.jpg", k)).collect();
    assert_eq!(names[0], "a.jpg");
    assert_eq!(names[1], "a_1.jpg");
    assert_eq!(names[2], "a_2.jpg");
    assert_eq!(names[11], "a_11.jpg");
    for i in 0..names.len() {
        for j in 0..names.len() {
            if i != j {
                assert_ne!(names[i], names[j]);
            }
        }
    }
}

#[test]
fn destination_without_extension_gets_plain_suffix() {
    assert_eq!(resolve("/d", "README", &["/d/README"], false).0, "/d/README_1");
    assert_eq!(resolve("/d", ".bashrc", &["/d/.bashrc"], false).0, "/d/.bashrc_1");
    assert_eq!(destination_name("archive.tar.gz", 2), "archive.tar_2.gz");
    assert_eq!(destination_name("a.", 1), "a_1.");
}

#[test]
fn destination_counter_in_decimal() {
    assert_eq!(destination_name("x.txt", 10), "x_10.txt");
    assert_eq!(destination_name("x.txt", 12345), "x_12345.txt");
    assert_eq!(destination_name("x.txt", u64::MAX), "x_18446744073709551615.txt");
}
