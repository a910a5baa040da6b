use dlna_server::media::catalog_from_listing;
use dlna_server::media::extension_of_name;
use dlna_server::media::is_supported_format;
use dlna_server::media::FsEntry;

fn file_entry(name: &str) -> FsEntry {
    FsEntry { name: name.to_owned(), path: format!("/media/{}", name), is_file: true }
}

#[test]
fn supported_formats_match_case_insensitively() {
    assert!(is_supported_format("mp4"));
    assert!(is_supported_format("MP4"));
    assert!(is_supported_format("Mkv"));
    assert!(is_supported_format("mkv"));
    assert!(is_supported_format("AVI"));
    assert!(is_supported_format("mp3"));
    assert!(!is_supported_format("txt"));
    assert!(!is_supported_format("mp44"));
    assert!(!is_supported_format("mp"));
    assert!(!is_supported_format(""));
    assert!(!is_supported_format("srt"));
}

#[test]
fn extension_is_the_text_after_the_last_dot() {
    assert_eq!(extension_of_name("a.mp4"), Some("mp4".to_owned()));
    assert_eq!(extension_of_name("archive.tar.gz"), Some("gz".to_owned()));
    assert_eq!(extension_of_name("noext"), None);
    assert_eq!(extension_of_name(".hidden"), None);
    assert_eq!(extension_of_name("trailing."), Some("".to_owned()));
    assert_eq!(extension_of_name(""), None);
}

#[test]
fn catalog_keeps_supported_files_in_listing_order() {
    let entries = vec![file_entry("a.mp4"), file_entry("b.txt"), file_entry("c.MKV")];
    let catalog = catalog_from_listing(&entries);
    let names: Vec<&str> = catalog.iter().map(|f| f.name.as_str()).collect();
    assert_eq!(names, vec!["a.mp4", "c.MKV"]);
    assert_eq!(catalog[0].path, "/media/a.mp4");
    assert_eq!(catalog[1].path, "/media/c.MKV");
}

#[test]
fn directories_are_not_catalogued() {
    let mut entries = vec![file_entry("a.mp4")];
    entries.push(FsEntry { name: "b.mp4".to_owned(), path: "/media/b.mp4".to_owned(), is_file: false });
    let catalog = catalog_from_listing(&entries);
    assert_eq!(catalog.len(), 1);
    assert_eq!(catalog[0].name, "a.mp4");
}

#[test]
fn empty_listing_gives_empty_catalog() {
    let entries: Vec<FsEntry> = Vec::new();
    assert_eq!(catalog_from_listing(&entries).len(), 0);
}
