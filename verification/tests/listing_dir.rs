use shellm::controller::Shellm;
use shellm::listing::{format_file_listing, FileEntry};

fn entry(name: &str, is_dir: bool) -> FileEntry {
    FileEntry { name: String::from(name), is_dir }
}

#[test]
fn listing_sorts_and_joins() {
    let entries = vec![entry("b.txt", false), entry("a.txt", false)];
    assert_eq!(format_file_listing(&entries), "a.txt, b.txt");
}

#[test]
fn listing_suffixes_directories() {
    let entries = vec![entry("src", true), entry("a.txt", false)];
    assert_eq!(format_file_listing(&entries), "a.txt, src/");
}

#[test]
fn listing_orders_bytewise() {
    // uppercase letters precede lowercase ones in byte order
    let entries = vec![entry("notes.txt", false), entry("B.txt", false)];
    assert_eq!(format_file_listing(&entries), "B.txt, notes.txt");
}

#[test]
fn listing_of_nothing_is_empty() {
    let entries: Vec<FileEntry> = Vec::new();
    assert_eq!(format_file_listing(&entries), "");
}

#[test]
fn listing_of_one_entry_has_no_comma() {
    let entries = vec![entry("only", true)];
    assert_eq!(format_file_listing(&entries), "only/");
}

#[test]
fn augmented_query_ends_with_file_listing() {
    let entries = vec![entry("a.txt", false), entry("b.txt", false)];
    let files = format_file_listing(&entries);
    let augmented = Shellm::augment_query(String::from("list files"), "/home/user", &files);
    assert!(augmented.ends_with("FILES: a.txt, b.txt"));
    assert_eq!(augmented, "list files WD: /home/user FILES: a.txt, b.txt");
}
