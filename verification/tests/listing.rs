use cogere::files::{list_files, FileEntry, Listed};

fn file(name: &str, size: u64) -> Listed {
    Listed { name: name.to_string(), size, is_file: true }
}

fn directory(name: &str) -> Listed {
    Listed { name: name.to_string(), size: 4096, is_file: false }
}

fn entry(name: &str, size: u64) -> FileEntry {
    FileEntry { name: name.to_string(), size }
}

#[test]
fn listing_is_sorted_by_name() {
    let listed = list_files(&vec![file("b.jar", 2), file("c.jar", 3), file("a.jar", 1)]);
    assert_eq!(listed, vec![entry("a.jar", 1), entry("b.jar", 2), entry("c.jar", 3)]);
}

#[test]
fn listing_of_nothing_is_empty() {
    assert_eq!(list_files(&Vec::new()), Vec::new());
}

#[test]
fn listing_hides_the_reserved_name() {
    let listed = list_files(&vec![file("z", 1), file(".cogere", 9), file("a", 2)]);
    assert_eq!(listed, vec![entry("a", 2), entry("z", 1)]);
}

#[test]
fn listing_shows_names_that_are_close_to_the_reserved_one() {
    let listed = list_files(&vec![
        file(".cogere2", 1),
        file(".coger", 2),
        file("cogere", 3),
        file(".Cogere", 4),
        file(".cogere", 5),
    ]);
    assert_eq!(
        listed,
        vec![entry(".Cogere", 4), entry(".coger", 2), entry(".cogere2", 1), entry("cogere", 3)]
    );
}

#[test]
fn listing_shows_regular_files_only() {
    let listed = list_files(&vec![directory("plugins"), file("b", 1), directory(".cogere"), file("a", 2)]);
    assert_eq!(listed, vec![entry("a", 2), entry("b", 1)]);
}

#[test]
fn listing_orders_names_as_bytes() {
    let listed = list_files(&vec![
        file("b", 1),
        file("B", 2),
        file("ab", 3),
        file("a", 4),
        file("", 5),
        file("ä", 6),
        file("10", 7),
        file("9", 8),
    ]);
    let names: Vec<&str> = listed.iter().map(|f| f.name.as_str()).collect();
    assert_eq!(names, vec!["", "10", "9", "B", "a", "ab", "b", "ä"]);
}

#[test]
fn listing_matches_the_order_of_std() {
    let names = ["delta", "alpha", "Charlie", "bravo", "alpha2", "echo", "_x", "~", "0"];
    let listed = list_files(&names.iter().map(|n| file(n, n.len() as u64)).collect());
    let mut expected: Vec<FileEntry> = names.iter().map(|n| entry(n, n.len() as u64)).collect();
    expected.sort_by(|a, b| a.name.cmp(&b.name));
    assert_eq!(listed, expected);
}

#[test]
fn listing_keeps_sizes_with_their_names() {
    let listed = list_files(&vec![file("b", u64::MAX), file("a", 0)]);
    assert_eq!(listed, vec![entry("a", 0), entry("b", u64::MAX)]);
}

#[test]
fn listing_keeps_a_name_that_was_read_twice() {
    let listed = list_files(&vec![file("a", 1), file("b", 2), file("a", 3)]);
    assert_eq!(listed.len(), 3);
    assert_eq!(listed[0].name, "a");
    assert_eq!(listed[1].name, "a");
    assert_eq!(listed[2], entry("b", 2));
}
