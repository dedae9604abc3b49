use plutonium_launcher::manifest::{find_index_html, total_revision, FileEntry};

fn entry(name: &str) -> FileEntry {
    FileEntry { name: name.to_string(), size: 1, hash: "00".to_string() }
}

#[test]
fn total_revision_sums_all_manifests() {
    assert_eq!(total_revision(&vec![]), Some(0));
    assert_eq!(total_revision(&vec![7]), Some(7));
    assert_eq!(total_revision(&vec![1, 2, 3]), Some(6));
    assert_eq!(total_revision(&vec![u64::MAX - 1, 1]), Some(u64::MAX));
}

#[test]
fn total_revision_overflow_is_none() {
    assert_eq!(total_revision(&vec![u64::MAX, 1]), None);
    assert_eq!(total_revision(&vec![u64::MAX, 0, 1, 0]), None);
}

#[test]
fn find_index_html_finds_first_entry() {
    let files = vec![
        entry("a.dll"),
        entry("launcher/assets/index.html"),
        entry("launcher/assets/index.html"),
    ];
    assert_eq!(find_index_html(&files), Some(1));
    assert_eq!(find_index_html(&vec![entry("a.dll")]), None);
    assert_eq!(find_index_html(&vec![]), None);
}
