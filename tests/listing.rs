use sampitor::listing::{listing_or_error, name, sort_entries, sorted_names, text_less_exec};

fn raw(entries: &[(&str, bool)]) -> Vec<(String, bool)> {
    entries.iter().map(|(p, d)| (String::from(*p), *d)).collect()
}

#[test]
fn sort_folders_before_files() {
    let listing = raw(&[
        ("folder/a", false),
        ("folder/c", true),
        ("folder/b", true),
        ("folder/d", false),
    ]);

    let expected = vec![
        (String::from("b"), true),
        (String::from("c"), true),
        (String::from("a"), false),
        (String::from("d"), false),
    ];
    let actual = sorted_names(&listing).unwrap();
    assert_eq!(actual, expected);
}

#[test]
fn sort_is_stable_across_reloads() {
    let listing = raw(&[("x/zeta", false), ("x/alpha", true), ("x/beta", false)]);
    let reread = raw(&[("x/beta", false), ("x/zeta", false), ("x/alpha", true)]);
    let first = sorted_names(&listing).unwrap();
    let second = sorted_names(&reread).unwrap();
    assert_eq!(first, second);
    assert_eq!(
        first,
        vec![
            (String::from("alpha"), true),
            (String::from("beta"), false),
            (String::from("zeta"), false)
        ]
    );
}

#[test]
fn sort_by_characters() {
    let entries = raw(&[("b", false), ("ab", false), ("a", false), ("B", false), ("é", false)]);
    let sorted: Vec<String> = sort_entries(&entries).into_iter().map(|e| e.0).collect();
    assert_eq!(sorted, vec!["B", "a", "ab", "b", "é"]);
}

#[test]
fn compare_names() {
    assert!(text_less_exec("a", "b"));
    assert!(text_less_exec("a", "ab"));
    assert!(text_less_exec("", "a"));
    assert!(!text_less_exec("ab", "a"));
    assert!(!text_less_exec("same", "same"));
    assert!(text_less_exec("Z", "a"));
}

#[test]
fn name_of_path() {
    assert_eq!(name("music/kick.wav"), Ok(String::from("kick.wav")));
    assert_eq!(name("kick.wav"), Ok(String::from("kick.wav")));
}

#[test]
fn name_of_root_fails() {
    assert_eq!(
        name("/"),
        Err(String::from("File path / does not have a final component"))
    );
    assert!(name("music/..").is_err());
}

#[test]
fn unnamed_path_fails_listing() {
    let listing = raw(&[("dir/a", false), ("..", true)]);
    assert_eq!(
        sorted_names(&listing),
        Err(String::from("File path .. does not have a final component"))
    );
}

#[test]
fn unreadable_directory_becomes_entry() {
    let shown = listing_or_error(Err(String::from("permission denied")));
    assert_eq!(shown, vec![(String::from("permission denied"), false)]);
}

#[test]
fn empty_directory() {
    assert_eq!(sorted_names(&Vec::new()), Ok(Vec::new()));
}
