use dlna_server::description::interpret_description_fetch;
use dlna_server::description::parse_device_description;
use dlna_server::description::DescriptionError;

const FULL_DOC: &str = "<?xml version=\"1.0\"?>\
<root xmlns=\"urn:schemas-upnp-org:device-1-0\">\
<device>\
<deviceType>urn:schemas-upnp-org:device:MediaRenderer:1</deviceType>\
<friendlyName>Living Room TV</friendlyName>\
<manufacturer>Acme</manufacturer>\
<modelName>TV-1000</modelName>\
<UDN>uuid:0a1b2c</UDN>\
<serviceList>\
<service>\
<serviceType>urn:schemas-upnp-org:service:AVTransport:1</serviceType>\
<controlURL>/upnp/control/AVTransport1</controlURL>\
<SCPDURL>/upnp/scpd/AVTransport1.xml</SCPDURL>\
</service>\
<service>\
<serviceType>urn:schemas-upnp-org:service:ConnectionManager:1</serviceType>\
<controlURL>/upnp/control/ConnectionManager1</controlURL>\
<SCPDURL>/upnp/scpd/ConnectionManager1.xml</SCPDURL>\
</service>\
</serviceList>\
</device>\
</root>";

#[test]
fn full_document_parses_with_services_in_order() {
    let d = parse_device_description(FULL_DOC).expect("parses");
    assert_eq!(d.device.friendly_name, "Living Room TV");
    assert_eq!(d.device.manufacturer, "Acme");
    assert_eq!(d.device.model_name, "TV-1000");
    assert_eq!(d.device.udn, "uuid:0a1b2c");
    let list = d.device.service_list.expect("has services");
    assert_eq!(list.services.len(), 2);
    assert_eq!(list.services[0].service_type, "urn:schemas-upnp-org:service:AVTransport:1");
    assert_eq!(list.services[0].control_url, "/upnp/control/AVTransport1");
    assert_eq!(list.services[0].scpd_url, "/upnp/scpd/AVTransport1.xml");
    assert_eq!(list.services[1].service_type, "urn:schemas-upnp-org:service:ConnectionManager:1");
}

#[test]
fn missing_service_list_is_not_an_error() {
    let doc = "<root><device><friendlyName>Bare</friendlyName></device></root>";
    let d = parse_device_description(doc).expect("parses");
    assert_eq!(d.device.friendly_name, "Bare");
    assert!(d.device.service_list.is_none());
}

#[test]
fn missing_scalars_default_to_empty_strings() {
    let doc = "<root><device><serviceList></serviceList></device></root>";
    let d = parse_device_description(doc).expect("parses");
    assert_eq!(d.device.friendly_name, "");
    assert_eq!(d.device.manufacturer, "");
    assert_eq!(d.device.model_name, "");
    assert_eq!(d.device.udn, "");
    let list = d.device.service_list.expect("empty list present");
    assert_eq!(list.services.len(), 0);
}

#[test]
fn document_without_device_element_is_malformed() {
    let doc = "<root><friendlyName>No device here</friendlyName></root>";
    match parse_device_description(doc) {
        Err(DescriptionError::Malformed) => {}
        _ => panic!("expected a malformed-description error"),
    }
}

#[test]
fn unclosed_device_element_is_malformed() {
    let doc = "<root><device><friendlyName>Open</friendlyName></root>";
    match parse_device_description(doc) {
        Err(DescriptionError::Malformed) => {}
        _ => panic!("expected a malformed-description error"),
    }
}

#[test]
fn failed_fetch_is_unavailable() {
    match interpret_description_fetch(false, FULL_DOC) {
        Err(DescriptionError::Unavailable) => {}
        _ => panic!("expected an unavailable-description error"),
    }
}

#[test]
fn successful_fetch_parses_body() {
    let d = interpret_description_fetch(true, FULL_DOC).expect("parses");
    assert_eq!(d.device.friendly_name, "Living Room TV");
}
