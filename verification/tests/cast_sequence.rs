use dlna_server::cast::cast_apply;
use dlna_server::cast::cast_next_stage;
use dlna_server::cast::cast_request;
use dlna_server::cast::CastStage;
use dlna_server::cast::CastState;
use dlna_server::soap::build_media_url;
use dlna_server::soap::control_base_url;
use dlna_server::soap::build_prepare_envelope;
use dlna_server::soap::soap_content_type;

#[test]
fn stages_follow_in_program_order() {
    let state = CastState::Idle;
    assert!(matches!(cast_next_stage(&state), Some(CastStage::Prepare)));
    let state = cast_apply(state, true, String::new());
    assert!(matches!(cast_next_stage(&state), Some(CastStage::SetUri)));
    let state = cast_apply(state, true, String::new());
    assert!(matches!(cast_next_stage(&state), Some(CastStage::Play)));
    let state = cast_apply(state, true, String::new());
    assert!(matches!(state, CastState::Playing));
    assert!(cast_next_stage(&state).is_none());
}

#[test]
fn set_uri_failure_stops_the_sequence_before_play() {
    let state = CastState::Idle;
    let state = cast_apply(state, true, String::new());
    let state = cast_apply(state, false, "<fault>locked</fault>".to_owned());
    match &state {
        CastState::Failed(e) => {
            assert!(matches!(e.stage, CastStage::SetUri));
            assert_eq!(e.detail, "<fault>locked</fault>");
        }
        _ => panic!("expected the sequence to fail at the transport-URI stage"),
    }
    assert!(cast_next_stage(&state).is_none());
    let state = cast_apply(state, true, String::new());
    match state {
        CastState::Failed(e) => assert!(matches!(e.stage, CastStage::SetUri)),
        _ => panic!("a failed sequence must stay failed"),
    }
}

#[test]
fn prepare_failure_reports_the_prepare_stage() {
    let state = cast_apply(CastState::Idle, false, "no".to_owned());
    match state {
        CastState::Failed(e) => assert!(matches!(e.stage, CastStage::Prepare)),
        _ => panic!("expected the sequence to fail at the prepare stage"),
    }
}

#[test]
fn play_failure_reports_the_play_stage() {
    let state = cast_apply(CastState::UriSet, false, "no".to_owned());
    match state {
        CastState::Failed(e) => assert!(matches!(e.stage, CastStage::Play)),
        _ => panic!("expected the sequence to fail at the play stage"),
    }
}

#[test]
fn prepare_request_targets_the_connection_manager() {
    let r = cast_request(CastStage::Prepare, "http://device:7676", "http://me:8080/media/a.mp4", "a.mp4");
    assert_eq!(r.url, "http://device:7676/drm/upnp/control/ConnectionManager1");
    assert_eq!(
        r.action,
        "\"urn:schemas-upnp-org:service:ConnectionManager:1#PrepareForConnection\""
    );
    assert_eq!(r.body, build_prepare_envelope());
    assert!(r.body.contains("<u:PrepareForConnection"));
    assert!(r.body.contains("<Direction>Input</Direction>"));
}

#[test]
fn set_uri_request_embeds_url_and_metadata() {
    let media_url = "http://me:8080/media/a.mp4";
    let r = cast_request(CastStage::SetUri, "http://device:7676", media_url, "a.mp4");
    assert_eq!(r.url, "http://device:7676/upnp/control/AVTransport1");
    assert_eq!(r.action, "\"urn:schemas-upnp-org:service:AVTransport:1#SetAVTransportURI\"");
    assert!(r.body.contains("<InstanceID>0</InstanceID>"));
    assert!(r.body.contains(&format!("<CurrentURI>{}</CurrentURI>", media_url)));
    assert!(r.body.contains("<dc:title>a.mp4</dc:title>"));
    assert!(r.body.contains(&format!("<res protocolInfo=\"http-get:*:video/mp4:DLNA.ORG_OP=01\">{}</res>", media_url)));
    let metadata = format!(
        "<DIDL-Lite xmlns=\"urn:schemas-upnp-org:metadata-1-0/DIDL-Lite/\" xmlns:dc=\"http://purl.org/dc/elements/1.1/\" xmlns:upnp=\"urn:schemas-upnp-org:metadata-1-0/upnp/\"><item id=\"0\" parentID=\"-1\" restricted=\"1\"><dc:title>a.mp4</dc:title><res protocolInfo=\"http-get:*:video/mp4:DLNA.ORG_OP=01\">{}</res></item></DIDL-Lite>",
        media_url
    );
    assert_eq!(
        r.body,
        format!(
            "<?xml version=\"1.0\"?><s:Envelope xmlns:s=\"http://schemas.xmlsoap.org/soap/envelope/\" s:encodingStyle=\"http://schemas.xmlsoap.org/soap/encoding/\"><s:Body><u:SetAVTransportURI xmlns:u=\"urn:schemas-upnp-org:service:AVTransport:1\"><InstanceID>0</InstanceID><CurrentURI>{}</CurrentURI><CurrentURIMetaData>{}</CurrentURIMetaData></u:SetAVTransportURI></s:Body></s:Envelope>",
            media_url, metadata
        )
    );
}

#[test]
fn play_request_targets_the_transport_service() {
    let r = cast_request(CastStage::Play, "http://device:7676", "http://me:8080/media/a.mp4", "a.mp4");
    assert_eq!(r.url, "http://device:7676/upnp/control/AVTransport1");
    assert_eq!(r.action, "\"urn:schemas-upnp-org:service:AVTransport:1#Play\"");
    assert!(r.body.contains("<u:Play"));
    assert!(r.body.contains("<Speed>1</Speed>"));
}

#[test]
fn media_url_names_host_port_and_file() {
    assert_eq!(
        build_media_url("192.168.0.97", 8080, "classic.mp4"),
        "http://192.168.0.97:8080/media/classic.mp4"
    );
}

#[test]
fn advertised_location_loses_its_renderer_suffix() {
    assert_eq!(control_base_url("http://device:7676/dmr"), "http://device:7676");
    assert_eq!(control_base_url("http://device:7676/dmr/dmr"), "http://device:7676");
    assert_eq!(control_base_url("http://device:7676"), "http://device:7676");
    assert_eq!(control_base_url(""), "");
}

#[test]
fn soap_requests_use_the_xml_content_type() {
    assert_eq!(soap_content_type(), "text/xml; charset=\"utf-8\"");
}
