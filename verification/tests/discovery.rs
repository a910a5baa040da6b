use dlna_server::ssdp::build_search_request;
use dlna_server::ssdp::discovery_window_open;
use dlna_server::ssdp::media_renderer_target;
use dlna_server::ssdp::parse_ssdp_response;
use dlna_server::ssdp::register_device;
use dlna_server::ssdp::DiscoveredDevice;
use dlna_server::text::header_value;
use dlna_server::text::trim_str;

fn renderer_response(location: &str, usn: &str) -> String {
    format!(
        "HTTP/1.1 200 OK\r\nCACHE-CONTROL: max-age=1800\r\nLOCATION: {}\r\nST: urn:schemas-upnp-org:device:MediaRenderer:1\r\nUSN: {}\r\n\r\n",
        location, usn
    )
}

#[test]
fn search_request_wire_format() {
    let req = build_search_request("239.255.255.250", 1900);
    assert_eq!(
        req,
        "M-SEARCH * HTTP/1.1\r\nHOST: 239.255.255.250:1900\r\nMAN: \"ssdp:discover\"\r\nMX: 5\r\nST: ssdp:all\r\n\r\n"
    );
}

#[test]
fn response_with_target_is_accepted() {
    let text = renderer_response("http://192.168.0.9:7676/dmr", "uuid:abc::renderer");
    let d = parse_ssdp_response(&text, media_renderer_target()).expect("accepted");
    assert_eq!(d.location, "http://192.168.0.9:7676/dmr");
    assert_eq!(d.usn, "uuid:abc::renderer");
    assert_eq!(d.st, "urn:schemas-upnp-org:device:MediaRenderer:1");
}

#[test]
fn response_without_target_is_rejected() {
    let text = "HTTP/1.1 200 OK\r\nLOCATION: http://x/\r\nST: upnp:rootdevice\r\nUSN: uuid:z\r\n\r\n";
    assert!(parse_ssdp_response(text, media_renderer_target()).is_none());
}

#[test]
fn missing_headers_default_to_empty() {
    let text = "HTTP/1.1 200 OK\r\nST: urn:schemas-upnp-org:device:MediaRenderer:1\r\n\r\n";
    let d = parse_ssdp_response(text, media_renderer_target()).expect("accepted");
    assert_eq!(d.location, "");
    assert_eq!(d.usn, "");
}

#[test]
fn duplicate_usn_collapses_to_first_entry() {
    let responses = [
        renderer_response("http://host-one/dmr", "uuid:one"),
        renderer_response("http://host-two/dmr", "uuid:two"),
        renderer_response("http://host-one-again/dmr", "uuid:one"),
        renderer_response("http://host-two-again/dmr", "uuid:two"),
        renderer_response("http://host-three/dmr", "uuid:three"),
    ];
    let mut devices: Vec<DiscoveredDevice> = Vec::new();
    for r in &responses {
        if let Some(d) = parse_ssdp_response(r, media_renderer_target()) {
            register_device(&mut devices, d);
        }
    }
    assert_eq!(devices.len(), 3);
    assert_eq!(devices[0].usn, "uuid:one");
    assert_eq!(devices[0].location, "http://host-one/dmr");
    assert_eq!(devices[1].usn, "uuid:two");
    assert_eq!(devices[1].location, "http://host-two/dmr");
    assert_eq!(devices[2].usn, "uuid:three");
    assert_eq!(devices[2].location, "http://host-three/dmr");
}

#[test]
fn window_open_is_strictly_before_deadline() {
    assert!(discovery_window_open(0, 5000));
    assert!(discovery_window_open(4999, 5000));
    assert!(!discovery_window_open(5000, 5000));
    assert!(!discovery_window_open(6000, 5000));
}

#[test]
fn header_value_trims_and_takes_first_match() {
    let text = "A: 1\r\nLOCATION:   http://a/  \r\nLOCATION: http://b/\r\n";
    assert_eq!(header_value(text, "LOCATION:"), "http://a/");
    assert_eq!(header_value(text, "MISSING:"), "");
}

#[test]
fn trim_removes_surrounding_whitespace() {
    assert_eq!(trim_str("  a b\t \r"), "a b");
    assert_eq!(trim_str(""), "");
    assert_eq!(trim_str(" \t\r"), "");
}
