//! A verified core for a small DLNA media-casting application.
//!
//! The library holds the protocol logic: SSDP discovery-response parsing and
//! de-duplication, UPnP device-description parsing, media-catalog filtering,
//! the HTTP endpoint's routing and response building, SOAP envelope
//! construction, and the cast-control state machine.  All network, file and
//! environment I/O lives outside the library and hands plain values in.

pub mod cast;
pub mod config;
pub mod description;
pub mod httpd;
pub mod soap;
pub mod media;
pub mod numerals;
pub mod ssdp;
pub mod text;
