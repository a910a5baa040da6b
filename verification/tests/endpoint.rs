use dlna_server::httpd::description_document;
use dlna_server::httpd::description_response;
use dlna_server::httpd::internal_error_response;
use dlna_server::httpd::is_safe_media_name;
use dlna_server::httpd::media_file_response;
use dlna_server::httpd::media_fs_path;
use dlna_server::httpd::media_list_json;
use dlna_server::httpd::media_list_response;
use dlna_server::httpd::mime_type_for;
use dlna_server::httpd::not_found_response;
use dlna_server::httpd::route_for_path;
use dlna_server::httpd::FileOutcome;
use dlna_server::httpd::Route;
use dlna_server::media::MediaFile;

#[test]
fn routes_select_by_path() {
    assert!(matches!(route_for_path("/description.xml"), Route::Description));
    assert!(matches!(route_for_path("/media"), Route::MediaList));
    match route_for_path("/media/classic.mp4") {
        Route::MediaItem(name) => assert_eq!(name, "classic.mp4"),
        _ => panic!("expected a media-item route"),
    }
    match route_for_path("/media/") {
        Route::MediaItem(name) => assert_eq!(name, ""),
        _ => panic!("expected a media-item route"),
    }
    assert!(matches!(route_for_path("/"), Route::Unknown));
    assert!(matches!(route_for_path("/mediafiles"), Route::Unknown));
    assert!(matches!(route_for_path("/other"), Route::Unknown));
}

#[test]
fn unsafe_media_names_are_rejected() {
    assert!(is_safe_media_name("classic.mp4"));
    assert!(is_safe_media_name("with space.mkv"));
    assert!(!is_safe_media_name(""));
    assert!(!is_safe_media_name("."));
    assert!(!is_safe_media_name(".."));
    assert!(!is_safe_media_name("../secret.mp4"));
    assert!(!is_safe_media_name("a/b.mp4"));
    assert!(!is_safe_media_name("a\\b.mp4"));
}

#[test]
fn media_path_joins_root_and_safe_name() {
    assert_eq!(media_fs_path("/srv/media", "classic.mp4"), Some("/srv/media/classic.mp4".to_owned()));
    assert_eq!(media_fs_path("/srv/media", "../etc/passwd"), None);
}

#[test]
fn mime_table_is_fixed() {
    assert_eq!(mime_type_for(Some("mp4")), "video/mp4");
    assert_eq!(mime_type_for(Some("mkv")), "video/x-matroska");
    assert_eq!(mime_type_for(Some("avi")), "video/x-msvideo");
    assert_eq!(mime_type_for(Some("mp3")), "audio/mpeg");
    assert_eq!(mime_type_for(Some("srt")), "application/x-subrip");
    assert_eq!(mime_type_for(Some("bin")), "application/octet-stream");
    assert_eq!(mime_type_for(None), "application/octet-stream");
}

#[test]
fn existing_media_file_is_served_byte_identically() {
    let content = vec![0u8, 1, 2, 255, 254, 77];
    let r = media_file_response("classic.mp4", FileOutcome::Content(content.clone()));
    assert_eq!(r.status, 200);
    assert_eq!(r.content_type.as_deref(), Some("video/mp4"));
    assert_eq!(r.content_disposition.as_deref(), Some("inline; filename=\"classic.mp4\""));
    assert_eq!(r.body, content);
}

#[test]
fn missing_media_file_is_not_found() {
    let r = media_file_response("missing.mp4", FileOutcome::Missing);
    assert_eq!(r.status, 404);
    assert_eq!(r.body, b"Not Found".to_vec());
}

#[test]
fn unreadable_media_file_is_an_internal_error() {
    let r = media_file_response("classic.mp4", FileOutcome::Unreadable);
    assert_eq!(r.status, 500);
}

#[test]
fn error_responses_carry_their_messages() {
    let r = not_found_response();
    assert_eq!(r.status, 404);
    assert_eq!(r.body, b"Not Found".to_vec());
    let r = internal_error_response("boom");
    assert_eq!(r.status, 500);
    assert_eq!(r.body, b"boom".to_vec());
}

#[test]
fn description_is_served_verbatim() {
    let r = description_response();
    assert_eq!(r.status, 200);
    assert_eq!(r.body, description_document().as_bytes().to_vec());
    assert!(description_document().contains("urn:schemas-upnp-org:device:MediaServer:1"));
}

#[test]
fn media_listing_serializes_as_json() {
    let files = vec![
        MediaFile { name: "a.mp4".to_owned(), path: "/m/a.mp4".to_owned() },
        MediaFile { name: "c.MKV".to_owned(), path: "/m/c.MKV".to_owned() },
    ];
    let json = media_list_json(&files);
    assert_eq!(
        String::from_utf8(json).unwrap(),
        "[{\"name\":\"a.mp4\",\"path\":\"/m/a.mp4\"},{\"name\":\"c.MKV\",\"path\":\"/m/c.MKV\"}]"
    );
    let empty: Vec<MediaFile> = Vec::new();
    assert_eq!(String::from_utf8(media_list_json(&empty)).unwrap(), "[]");
    let r = media_list_response(&files);
    assert_eq!(r.status, 200);
}

#[test]
fn json_listing_escapes_special_characters() {
    let files = vec![MediaFile {
        name: "a\"b\\c.mp4".to_owned(),
        path: "/m/a\tb\n.mp4".to_owned(),
    }];
    let json = String::from_utf8(media_list_json(&files)).unwrap();
    assert_eq!(json, "[{\"name\":\"a\\\"b\\\\c.mp4\",\"path\":\"/m/a\\tb\\n.mp4\"}]");
}
