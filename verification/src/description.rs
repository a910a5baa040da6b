//! UPnP device descriptions: structural parsing of the XML document a
//! device serves at its advertised location.
//!
//! Parsing is structural: the first occurrence of each expected element is
//! read and everything else is ignored.  Partial documents are valid — a
//! missing scalar element yields the empty string and a missing
//! `serviceList` yields no service list; only a document without a complete
//! `device` element is malformed.

use crate::text::find_from;
use crate::text::find_in_str;
use crate::text::lemma_find_from;
use vstd::prelude::*;

verus! {

/// The opening tag `<name>`.
pub open spec fn open_tag(name: Seq<char>) -> Seq<char> {
    seq!['<'] + name + seq!['>']
}

/// The closing tag `</name>`.
pub open spec fn close_tag(name: Seq<char>) -> Seq<char> {
    seq!['<', '/'] + name + seq!['>']
}

fn open_tag_string(name: &str) -> (r: String)
    ensures
        r@ == open_tag(name@),
{
    proof {
        reveal_strlit("<");
        reveal_strlit(">");
    }
    let mut s = String::from_str("<");
    s.append(name);
    s.append(">");
    proof {
        assert(s@ =~= open_tag(name@));
    }
    s
}

fn close_tag_string(name: &str) -> (r: String)
    ensures
        r@ == close_tag(name@),
{
    proof {
        reveal_strlit("</");
        reveal_strlit(">");
    }
    let mut s = String::from_str("</");
    s.append(name);
    s.append(">");
    proof {
        assert(s@ =~= close_tag(name@));
    }
    s
}

/// Where the element `name` first occurs in `doc` at or after index `i`:
/// the index just past its opening tag, and the index of its closing tag.
pub open spec fn element_span_from(doc: Seq<char>, name: Seq<char>, i: int) -> Option<(int, int)> {
    match find_from(doc, open_tag(name), i) {
        None => None,
        Some(o) => {
            let start = o + open_tag(name).len();
            match find_from(doc, close_tag(name), start) {
                None => None,
                Some(c) => Some((start, c)),
            }
        },
    }
}

/// The text of the first `name` element of `doc`: the characters between
/// its opening and closing tags, or empty when the element is absent or
/// unclosed.
pub open spec fn element_text(doc: Seq<char>, name: Seq<char>) -> Seq<char> {
    match element_span_from(doc, name, 0) {
        None => Seq::empty(),
        Some((start, end)) => doc.subrange(start, end),
    }
}

/// `doc` holds an opening tag for the element `name`.
pub open spec fn has_element(doc: Seq<char>, name: Seq<char>) -> bool {
    find_from(doc, open_tag(name), 0) is Some
}

/// Extracts the text of the first `name` element of `doc`.
pub fn extract_element(doc: &str, name: &str) -> (r: String)
    ensures
        r@ == element_text(doc@, name@),
{
    let _doc_len = doc.unicode_len();
    let open = open_tag_string(name);
    let close = close_tag_string(name);
    match find_in_str(doc, open.as_str(), 0) {
        None => String::new(),
        Some(o) => {
            proof {
                lemma_find_from(doc@, open_tag(name@), 0);
            }
            let start = o + open.unicode_len();
            match find_in_str(doc, close.as_str(), start) {
                None => String::new(),
                Some(c) => {
                    proof {
                        lemma_find_from(doc@, close_tag(name@), start as int);
                    }
                    let t = doc.substring_char(start, c);
                    String::from_str(t)
                },
            }
        },
    }
}

/// Tests whether `doc` holds an opening tag for the element `name`.
pub fn element_present(doc: &str, name: &str) -> (r: bool)
    ensures
        r == has_element(doc@, name@),
{
    let open = open_tag_string(name);
    match find_in_str(doc, open.as_str(), 0) {
        Some(_) => true,
        None => false,
    }
}

/// One advertised service of a device, in document order within the
/// service list.
#[derive(Debug, Clone)]
pub struct Service {
    pub service_type: String,
    pub control_url: String,
    pub scpd_url: String,
}

/// The mathematical image of a `Service`.
pub ghost struct ServiceView {
    pub service_type: Seq<char>,
    pub control_url: Seq<char>,
    pub scpd_url: Seq<char>,
}

impl View for Service {
    type V = ServiceView;

    open spec fn view(&self) -> ServiceView {
        ServiceView {
            service_type: self.service_type@,
            control_url: self.control_url@,
            scpd_url: self.scpd_url@,
        }
    }
}

/// The images of a sequence of services.
pub open spec fn service_views(s: Seq<Service>) -> Seq<ServiceView> {
    s.map_values(|v: Service| v@)
}

/// The list of services a device advertises.
#[derive(Debug, Clone)]
pub struct ServiceList {
    pub services: Vec<Service>,
}

/// The mathematical image of a `ServiceList`.
pub ghost struct ServiceListView {
    pub services: Seq<ServiceView>,
}

impl View for ServiceList {
    type V = ServiceListView;

    open spec fn view(&self) -> ServiceListView {
        ServiceListView { services: service_views(self.services@) }
    }
}

/// The device element of a description document.  A scalar field missing
/// from the document is the empty string; a missing service list is `None`.
#[derive(Debug, Clone)]
pub struct Device {
    pub friendly_name: String,
    pub manufacturer: String,
    pub model_name: String,
    pub udn: String,
    pub service_list: Option<ServiceList>,
}

/// The mathematical image of a `Device`.
pub ghost struct DeviceView {
    pub friendly_name: Seq<char>,
    pub manufacturer: Seq<char>,
    pub model_name: Seq<char>,
    pub udn: Seq<char>,
    pub service_list: Option<ServiceListView>,
}

impl View for Device {
    type V = DeviceView;

    open spec fn view(&self) -> DeviceView {
        DeviceView {
            friendly_name: self.friendly_name@,
            manufacturer: self.manufacturer@,
            model_name: self.model_name@,
            udn: self.udn@,
            service_list: match self.service_list {
                Some(l) => Some(l@),
                None => None,
            },
        }
    }
}

/// A parsed device-description document.
#[derive(Debug, Clone)]
pub struct DeviceDescription {
    pub device: Device,
}

/// The mathematical image of a `DeviceDescription`.
pub ghost struct DeviceDescriptionView {
    pub device: DeviceView,
}

impl View for DeviceDescription {
    type V = DeviceDescriptionView;

    open spec fn view(&self) -> DeviceDescriptionView {
        DeviceDescriptionView { device: self.device@ }
    }
}

/// The service record parsed from the text of one `service` element.
pub open spec fn service_of(text: Seq<char>) -> ServiceView {
    ServiceView {
        service_type: element_text(text, "serviceType"@),
        control_url: element_text(text, "controlURL"@),
        scpd_url: element_text(text, "SCPDURL"@),
    }
}

/// The services parsed from the text of a `serviceList` element, scanning
/// from index `k`: one record per `service` element, in document order.
pub open spec fn services_from(block: Seq<char>, k: int) -> Seq<ServiceView>
    decreases block.len() - k,
{
    match element_span_from(block, "service"@, k) {
        None => Seq::empty(),
        Some((start, end)) => {
            let next = end + close_tag("service"@).len();
            if k < next <= block.len() {
                seq![service_of(block.subrange(start, end))] + services_from(block, next)
            } else {
                Seq::empty()
            }
        },
    }
}

fn parse_service(text: &str) -> (r: Service)
    ensures
        r@ == service_of(text@),
{
    Service {
        service_type: extract_element(text, "serviceType"),
        control_url: extract_element(text, "controlURL"),
        scpd_url: extract_element(text, "SCPDURL"),
    }
}

fn collect_services(block: &str, from: usize) -> (r: Vec<Service>)
    ensures
        service_views(r@) == services_from(block@, from as int),
    decreases block@.len() - from,
{
    let _block_len = block.unicode_len();
    let open = open_tag_string("service");
    let close = close_tag_string("service");
    match find_in_str(block, open.as_str(), from) {
        None => Vec::new(),
        Some(o) => {
            proof {
                lemma_find_from(block@, open_tag("service"@), from as int);
            }
            let start = o + open.unicode_len();
            match find_in_str(block, close.as_str(), start) {
                None => Vec::new(),
                Some(c) => {
                    proof {
                        lemma_find_from(block@, close_tag("service"@), start as int);
                    }
                    let text = block.substring_char(start, c);
                    let svc = parse_service(text);
                    let next = c + close.unicode_len();
                    let mut rest = collect_services(block, next);
                    let mut r: Vec<Service> = Vec::new();
                    r.push(svc);
                    r.append(&mut rest);
                    proof {
                        assert(service_views(r@) =~= services_from(block@, from as int));
                    }
                    r
                },
            }
        },
    }
}

/// Why a description could not be produced.
#[derive(Debug, Clone, PartialEq, Eq, Structural)]
pub enum DescriptionError {
    /// The fetch of the document did not return success.
    Unavailable,
    /// The body fetched holds no complete `device` element.
    Malformed,
}

/// The device parsed from the text of the `device` element.
pub open spec fn device_of_block(b: Seq<char>) -> DeviceView {
    DeviceView {
        friendly_name: element_text(b, "friendlyName"@),
        manufacturer: element_text(b, "manufacturer"@),
        model_name: element_text(b, "modelName"@),
        udn: element_text(b, "UDN"@),
        service_list: if has_element(b, "serviceList"@) {
            Some(
                ServiceListView { services: services_from(element_text(b, "serviceList"@), 0) },
            )
        } else {
            None
        },
    }
}

/// The description parsed from a document: the fields of its `device`
/// element, or nothing when the document holds no complete `device`
/// element.
pub open spec fn description_of_doc(doc: Seq<char>) -> Option<DeviceDescriptionView> {
    match element_span_from(doc, "device"@, 0) {
        None => None,
        Some((start, end)) => Some(
            DeviceDescriptionView { device: device_of_block(doc.subrange(start, end)) },
        ),
    }
}

/// Parses a device-description document.
pub fn parse_device_description(xml: &str) -> (r: Result<DeviceDescription, DescriptionError>)
    ensures
        (r is Ok) == (description_of_doc(xml@) is Some),
        r matches Ok(d) ==> Some(d@) == description_of_doc(xml@),
        r matches Err(e) ==> e is Malformed,
{
    let _doc_len = xml.unicode_len();
    let open = open_tag_string("device");
    let close = close_tag_string("device");
    match find_in_str(xml, open.as_str(), 0) {
        None => Err(DescriptionError::Malformed),
        Some(o) => {
            proof {
                lemma_find_from(xml@, open_tag("device"@), 0);
            }
            let start = o + open.unicode_len();
            match find_in_str(xml, close.as_str(), start) {
                None => Err(DescriptionError::Malformed),
                Some(c) => {
                    proof {
                        lemma_find_from(xml@, close_tag("device"@), start as int);
                    }
                    let block = xml.substring_char(start, c);
                    let friendly_name = extract_element(block, "friendlyName");
                    let manufacturer = extract_element(block, "manufacturer");
                    let model_name = extract_element(block, "modelName");
                    let udn = extract_element(block, "UDN");
                    let service_list = if element_present(block, "serviceList") {
                        let list_text = extract_element(block, "serviceList");
                        let services = collect_services(list_text.as_str(), 0);
                        Some(ServiceList { services })
                    } else {
                        None
                    };
                    Ok(
                        DeviceDescription {
                            device: Device {
                                friendly_name,
                                manufacturer,
                                model_name,
                                udn,
                                service_list,
                            },
                        },
                    )
                },
            }
        },
    }
}

/// Law: a description document that holds a complete `device` element but
/// no `serviceList` inside it parses to a description without a service
/// list — it does not parse to an error.
pub proof fn lemma_missing_service_list_parses(doc: Seq<char>)
    requires
        element_span_from(doc, "device"@, 0) is Some,
        !has_element(element_text(doc, "device"@), "serviceList"@),
    ensures
        description_of_doc(doc) matches Some(d) && d.device.service_list is None,
{
}

/// Interprets the outcome of a description fetch: a non-success status is
/// `Unavailable`; a success body is parsed as a description document.
pub fn interpret_description_fetch(success: bool, body: &str) -> (r: Result<
    DeviceDescription,
    DescriptionError,
>)
    ensures
        !success ==> (r matches Err(e) && e is Unavailable),
        success ==> ((r is Ok) == (description_of_doc(body@) is Some)),
        success ==> (r matches Ok(d) ==> Some(d@) == description_of_doc(body@)),
        success ==> (r matches Err(e) ==> e is Malformed),
{
    if !success {
        Err(DescriptionError::Unavailable)
    } else {
        parse_device_description(body)
    }
}

} // verus!
