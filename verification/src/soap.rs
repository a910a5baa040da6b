//! SOAP control messages: the envelopes, action headers and control URLs of
//! the cast sequence, and the media URL handed to the renderer.

use crate::numerals::u16_dec;
use crate::numerals::u16_to_string;
use crate::text::match_at_exec;
use vstd::prelude::*;

verus! {

/// The renderer-description suffix some devices append to their advertised
/// location.
pub open spec fn dmr_suffix() -> Seq<char> {
    seq!['/', 'd', 'm', 'r']
}

/// The control base URL behind an advertised location: the location with
/// every trailing renderer-description suffix removed.
pub open spec fn control_base_spec(s: Seq<char>) -> Seq<char>
    decreases s.len(),
{
    if s.len() >= 4 && s.subrange(s.len() - 4, s.len() as int) == dmr_suffix() {
        control_base_spec(s.subrange(0, s.len() - 4))
    } else {
        s
    }
}

/// Derives the control base URL from a device's advertised location.
pub fn control_base_url(location: &str) -> (r: String)
    ensures
        r@ == control_base_spec(location@),
    decreases location@.len(),
{
    proof {
        reveal_strlit("/dmr");
        assert("/dmr"@ =~= dmr_suffix());
    }
    let n = location.unicode_len();
    if n >= 4 && match_at_exec(location, "/dmr", n - 4) {
        let shorter = location.substring_char(0, n - 4);
        control_base_url(shorter)
    } else {
        String::from_str(location)
    }
}

/// The SOAP action header of `PrepareForConnection`.
pub open spec fn prepare_action_spec() -> Seq<char> {
    "\"urn:schemas-upnp-org:service:ConnectionManager:1#PrepareForConnection\""@
}

/// The SOAP action header of `PrepareForConnection`.
pub fn prepare_action() -> (r: &'static str)
    ensures
        r@ == prepare_action_spec(),
{
    "\"urn:schemas-upnp-org:service:ConnectionManager:1#PrepareForConnection\""
}

/// The SOAP action header of `SetAVTransportURI`.
pub open spec fn set_uri_action_spec() -> Seq<char> {
    "\"urn:schemas-upnp-org:service:AVTransport:1#SetAVTransportURI\""@
}

/// The SOAP action header of `SetAVTransportURI`.
pub fn set_uri_action() -> (r: &'static str)
    ensures
        r@ == set_uri_action_spec(),
{
    "\"urn:schemas-upnp-org:service:AVTransport:1#SetAVTransportURI\""
}

/// The SOAP action header of `Play`.
pub open spec fn play_action_spec() -> Seq<char> {
    "\"urn:schemas-upnp-org:service:AVTransport:1#Play\""@
}

/// The SOAP action header of `Play`.
pub fn play_action() -> (r: &'static str)
    ensures
        r@ == play_action_spec(),
{
    "\"urn:schemas-upnp-org:service:AVTransport:1#Play\""
}

/// The content type of every SOAP request.
pub open spec fn soap_content_type_spec() -> Seq<char> {
    "text/xml; charset=\"utf-8\""@
}

/// The content type of every SOAP request.
pub fn soap_content_type() -> (r: &'static str)
    ensures
        r@ == soap_content_type_spec(),
{
    "text/xml; charset=\"utf-8\""
}

/// The connection-manager control endpoint under a device's control base
/// URL.
pub open spec fn connection_manager_url_spec(base: Seq<char>) -> Seq<char> {
    base + "/drm/upnp/control/ConnectionManager1"@
}

/// The connection-manager control endpoint under a device's control base
/// URL.
pub fn connection_manager_url(base: &str) -> (r: String)
    ensures
        r@ == connection_manager_url_spec(base@),
{
    let mut s = String::from_str(base);
    s.append("/drm/upnp/control/ConnectionManager1");
    s
}

/// The transport control endpoint under a device's control base URL.
pub open spec fn av_transport_url_spec(base: Seq<char>) -> Seq<char> {
    base + "/upnp/control/AVTransport1"@
}

/// The transport control endpoint under a device's control base URL.
pub fn av_transport_url(base: &str) -> (r: String)
    ensures
        r@ == av_transport_url_spec(base@),
{
    let mut s = String::from_str(base);
    s.append("/upnp/control/AVTransport1");
    s
}

/// The URL under which the media HTTP endpoint serves the named file.
pub open spec fn media_url_spec(address: Seq<char>, port: u16, name: Seq<char>) -> Seq<char> {
    "http://"@ + address + ":"@ + u16_dec(port) + "/media/"@ + name
}

/// Builds the URL under which the media HTTP endpoint serves the named
/// file.
pub fn build_media_url(address: &str, port: u16, name: &str) -> (r: String)
    ensures
        r@ == media_url_spec(address@, port, name@),
{
    let mut s = String::from_str("http://");
    s.append(address);
    s.append(":");
    let p = u16_to_string(port);
    s.append(p.as_str());
    s.append("/media/");
    s.append(name);
    proof {
        assert(s@ =~= media_url_spec(address@, port, name@));
    }
    s
}

/// The envelope of `PrepareForConnection`, declaring the profile of the
/// content that will follow.
pub open spec fn prepare_envelope_spec() -> Seq<char> {
    "<s:Envelope xmlns:s=\"http://schemas.xmlsoap.org/soap/envelope/\" s:encodingStyle=\"http://schemas.xmlsoap.org/soap/encoding/\"><s:Body><u:PrepareForConnection xmlns:u=\"urn:schemas-upnp-org:service:ConnectionManager:1\"><RemoteProtocolInfo>http-get:*:video/mp4:DLNA.ORG_OP=01;DLNA.ORG_FLAGS=01700000000000000000000000000000</RemoteProtocolInfo><PeerConnectionManager></PeerConnectionManager><PeerConnectionID>0</PeerConnectionID><Direction>Input</Direction></u:PrepareForConnection></s:Body></s:Envelope>"@
}

/// Builds the envelope of `PrepareForConnection`.
pub fn build_prepare_envelope() -> (r: &'static str)
    ensures
        r@ == prepare_envelope_spec(),
{
    "<s:Envelope xmlns:s=\"http://schemas.xmlsoap.org/soap/envelope/\" s:encodingStyle=\"http://schemas.xmlsoap.org/soap/encoding/\"><s:Body><u:PrepareForConnection xmlns:u=\"urn:schemas-upnp-org:service:ConnectionManager:1\"><RemoteProtocolInfo>http-get:*:video/mp4:DLNA.ORG_OP=01;DLNA.ORG_FLAGS=01700000000000000000000000000000</RemoteProtocolInfo><PeerConnectionManager></PeerConnectionManager><PeerConnectionID>0</PeerConnectionID><Direction>Input</Direction></u:PrepareForConnection></s:Body></s:Envelope>"
}

/// The DIDL-Lite metadata fragment describing the media item: its title
/// and the resource URL with its protocol information.
pub open spec fn didl_metadata_spec(title: Seq<char>, url: Seq<char>) -> Seq<char> {
    "<DIDL-Lite xmlns=\"urn:schemas-upnp-org:metadata-1-0/DIDL-Lite/\" xmlns:dc=\"http://purl.org/dc/elements/1.1/\" xmlns:upnp=\"urn:schemas-upnp-org:metadata-1-0/upnp/\"><item id=\"0\" parentID=\"-1\" restricted=\"1\"><dc:title>"@
        + title + "</dc:title><res protocolInfo=\"http-get:*:video/mp4:DLNA.ORG_OP=01\">"@ + url
        + "</res></item></DIDL-Lite>"@
}

/// Builds the DIDL-Lite metadata fragment for the media item.
pub fn build_didl_metadata(title: &str, url: &str) -> (r: String)
    ensures
        r@ == didl_metadata_spec(title@, url@),
{
    let mut s = String::from_str(
        "<DIDL-Lite xmlns=\"urn:schemas-upnp-org:metadata-1-0/DIDL-Lite/\" xmlns:dc=\"http://purl.org/dc/elements/1.1/\" xmlns:upnp=\"urn:schemas-upnp-org:metadata-1-0/upnp/\"><item id=\"0\" parentID=\"-1\" restricted=\"1\"><dc:title>",
    );
    s.append(title);
    s.append("</dc:title><res protocolInfo=\"http-get:*:video/mp4:DLNA.ORG_OP=01\">");
    s.append(url);
    s.append("</res></item></DIDL-Lite>");
    proof {
        assert(s@ =~= didl_metadata_spec(title@, url@));
    }
    s
}

/// The envelope of `SetAVTransportURI` for instance 0, carrying the media
/// URL and its metadata.
pub open spec fn set_uri_envelope_spec(url: Seq<char>, metadata: Seq<char>) -> Seq<char> {
    "<?xml version=\"1.0\"?><s:Envelope xmlns:s=\"http://schemas.xmlsoap.org/soap/envelope/\" s:encodingStyle=\"http://schemas.xmlsoap.org/soap/encoding/\"><s:Body><u:SetAVTransportURI xmlns:u=\"urn:schemas-upnp-org:service:AVTransport:1\"><InstanceID>0</InstanceID><CurrentURI>"@
        + url + "</CurrentURI><CurrentURIMetaData>"@ + metadata
        + "</CurrentURIMetaData></u:SetAVTransportURI></s:Body></s:Envelope>"@
}

/// Builds the envelope of `SetAVTransportURI`.
pub fn build_set_uri_envelope(url: &str, metadata: &str) -> (r: String)
    ensures
        r@ == set_uri_envelope_spec(url@, metadata@),
{
    let mut s = String::from_str(
        "<?xml version=\"1.0\"?><s:Envelope xmlns:s=\"http://schemas.xmlsoap.org/soap/envelope/\" s:encodingStyle=\"http://schemas.xmlsoap.org/soap/encoding/\"><s:Body><u:SetAVTransportURI xmlns:u=\"urn:schemas-upnp-org:service:AVTransport:1\"><InstanceID>0</InstanceID><CurrentURI>",
    );
    s.append(url);
    s.append("</CurrentURI><CurrentURIMetaData>");
    s.append(metadata);
    s.append("</CurrentURIMetaData></u:SetAVTransportURI></s:Body></s:Envelope>");
    proof {
        assert(s@ =~= set_uri_envelope_spec(url@, metadata@));
    }
    s
}

/// The envelope of `Play` for instance 0 at speed one.
pub open spec fn play_envelope_spec() -> Seq<char> {
    "<?xml version=\"1.0\"?><s:Envelope xmlns:s=\"http://schemas.xmlsoap.org/soap/envelope/\" s:encodingStyle=\"http://schemas.xmlsoap.org/soap/encoding/\"><s:Body><u:Play xmlns:u=\"urn:schemas-upnp-org:service:AVTransport:1\"><InstanceID>0</InstanceID><Speed>1</Speed></u:Play></s:Body></s:Envelope>"@
}

/// Builds the envelope of `Play`.
pub fn build_play_envelope() -> (r: &'static str)
    ensures
        r@ == play_envelope_spec(),
{
    "<?xml version=\"1.0\"?><s:Envelope xmlns:s=\"http://schemas.xmlsoap.org/soap/envelope/\" s:encodingStyle=\"http://schemas.xmlsoap.org/soap/encoding/\"><s:Body><u:Play xmlns:u=\"urn:schemas-upnp-org:service:AVTransport:1\"><InstanceID>0</InstanceID><Speed>1</Speed></u:Play></s:Body></s:Envelope>"
}

} // verus!
