use browser_core::listing::{filter_entries, list_entries, Entry};

fn file(name: &str, size: u64) -> Entry {
    Entry { name: name.to_string(), is_dir: false, size }
}

fn dir(name: &str) -> Entry {
    Entry { name: name.to_string(), is_dir: true, size: 0 }
}

fn names(listing: &Vec<Entry>) -> Vec<String> {
    listing.iter().map(|e| e.name.clone()).collect()
}

fn sample() -> Vec<Entry> {
    vec![
        file("zeta.txt", 1),
        dir("Alpha"),
        dir(".git"),
        dir("beta"),
        file(".env", 2),
        file("apple.txt", 3),
        file("Banana.txt", 4),
        dir("."),
        dir(".."),
        dir(".cache"),
    ]
}

#[test]
fn listing_has_four_groups_in_order() {
    let listing = list_entries(&sample(), true);
    assert_eq!(
        names(&listing),
        vec!["..", ".cache", ".git", "Alpha", "beta", ".env", "apple.txt", "Banana.txt", "zeta.txt"]
    );
}

#[test]
fn listing_starts_with_the_parent_entry() {
    let listing = list_entries(&sample(), true);
    assert_eq!(listing[0], Entry::parent());
    assert_eq!(listing[0], dir(".."));
    let empty = list_entries(&Vec::new(), false);
    assert_eq!(empty, vec![dir("..")]);
}

#[test]
fn listing_without_hidden_entries() {
    let listing = list_entries(&sample(), false);
    assert_eq!(names(&listing), vec!["..", "Alpha", "beta", "apple.txt", "Banana.txt", "zeta.txt"]);
}

#[test]
fn listing_keeps_the_entries_as_they_are() {
    let listing = list_entries(&sample(), true);
    assert_eq!(listing[5], file(".env", 2));
    assert_eq!(listing[8], file("zeta.txt", 1));
    assert_eq!(listing[3], dir("Alpha"));
}

#[test]
fn listing_order_ignores_ascii_case() {
    let raw = vec![file("b", 0), file("C", 0), file("a", 0), file("D", 0)];
    assert_eq!(names(&list_entries(&raw, true)), vec!["..", "a", "b", "C", "D"]);
}

#[test]
fn names_that_differ_in_case_only_keep_their_order() {
    let raw = vec![file("readme", 0), file("README", 0), file("ReadMe", 0)];
    assert_eq!(names(&list_entries(&raw, true)), vec!["..", "readme", "README", "ReadMe"]);
    let raw = vec![file("README", 0), file("ReadMe", 0), file("readme", 0)];
    assert_eq!(names(&list_entries(&raw, true)), vec!["..", "README", "ReadMe", "readme"]);
}

#[test]
fn a_shorter_name_comes_before_its_extensions() {
    let raw = vec![file("foobar", 0), file("foo", 0), file("foo.txt", 0)];
    assert_eq!(names(&list_entries(&raw, true)), vec!["..", "foo", "foo.txt", "foobar"]);
}

#[test]
fn listing_is_a_function_of_the_entries_and_the_flag() {
    let once = list_entries(&sample(), true);
    let hidden_off = list_entries(&sample(), false);
    let again = list_entries(&sample(), true);
    assert_eq!(once, again);
    assert_ne!(once, hidden_off);
}

#[test]
fn listing_agrees_with_a_stable_sort_by_group_and_name() {
    let raw = vec![
        file("m", 1),
        dir("Z"),
        file(".b", 2),
        dir(".y"),
        file("M", 3),
        dir("a"),
        file(".B", 4),
        file("0", 5),
        dir(".Y"),
        file("é", 6),
    ];
    let mut expected: Vec<Entry> = raw.iter().map(|e| file(&e.name, e.size)).collect();
    for (e, r) in expected.iter_mut().zip(raw.iter()) {
        e.is_dir = r.is_dir;
    }
    expected.sort_by_key(|e| {
        let hidden = e.name.starts_with('.');
        let group = match (e.is_dir, hidden) {
            (true, true) => 0,
            (true, false) => 1,
            (false, true) => 2,
            (false, false) => 3,
        };
        (group, e.name.to_ascii_lowercase())
    });
    expected.insert(0, dir(".."));
    assert_eq!(list_entries(&raw, true), expected);
}

#[test]
fn entry_groups() {
    assert_eq!(dir(".git").group(), 0);
    assert_eq!(dir("src").group(), 1);
    assert_eq!(file(".env", 0).group(), 2);
    assert_eq!(file("a.txt", 0).group(), 3);
    assert!(file(".env", 0).is_hidden());
    assert!(!file("a.env", 0).is_hidden());
    assert!(!file("", 0).is_hidden());
}

#[test]
fn entry_parent_and_listable() {
    assert!(Entry::parent().is_parent());
    assert!(dir("..").is_parent());
    assert!(!dir("...").is_parent());
    assert!(!dir(".").is_parent());
    assert!(!dir(".").is_listable(true));
    assert!(!dir("..").is_listable(true));
    assert!(dir(".x").is_listable(true));
    assert!(!dir(".x").is_listable(false));
    assert!(file("x", 0).is_listable(false));
}

#[test]
fn filter_keeps_matching_names_in_order() {
    let raw = vec![file("foo", 0), file("bar", 0), file("foobar", 0)];
    let listing = list_entries(&raw, true);
    assert_eq!(names(&listing), vec!["..", "bar", "foo", "foobar"]);
    let kept = filter_entries(&listing, "foo");
    assert_eq!(names(&kept), vec!["foo", "foobar"]);
}

#[test]
fn filter_is_case_sensitive() {
    let listing = list_entries(&vec![file("foo", 0), file("Foo", 0)], true);
    assert_eq!(names(&filter_entries(&listing, "Foo")), vec!["Foo"]);
    assert_eq!(names(&filter_entries(&listing, "FOO")), Vec::<String>::new());
}

#[test]
fn empty_filter_keeps_everything() {
    let listing = list_entries(&sample(), true);
    assert_eq!(filter_entries(&listing, ""), listing);
}

#[test]
fn filter_can_keep_the_parent_entry() {
    let listing = list_entries(&vec![file("a..b", 0), file("c", 0)], true);
    assert_eq!(names(&filter_entries(&listing, "..")), vec!["..", "a..b"]);
}
