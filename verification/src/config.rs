//! Runtime configuration and its resolution from optional source values.

use crate::numerals::parse_u16;
use crate::numerals::parse_u16_spec;
use vstd::prelude::*;

verus! {

/// The configuration the application runs with: where the HTTP endpoint
/// binds, how the server announces itself, where discovery multicasts go,
/// and which directory holds the media files.
#[derive(Clone)]
pub struct Config {
    pub http_address: String,
    pub http_port: u16,
    pub friendly_name: String,
    pub multicast_address: String,
    pub multicast_port: u16,
    pub media_directory: String,
}

/// The text of `v`, or the fallback `d` when `v` is absent.
pub open spec fn or_default(v: Option<String>, d: Seq<char>) -> Seq<char> {
    match v {
        Some(s) => s@,
        None => d,
    }
}

impl Config {
    /// Builds the configuration from optional source values, substituting the
    /// documented default for each absent one; `None` exactly when a port
    /// value does not read as a decimal port number.
    pub fn resolve(
        http_address: Option<String>,
        http_port: Option<String>,
        friendly_name: Option<String>,
        multicast_address: Option<String>,
        multicast_port: Option<String>,
        media_directory: Option<String>,
    ) -> (r: Option<Config>)
        ensures
            r is Some <==> (parse_u16_spec(or_default(http_port, "8080"@)) is Some
                && parse_u16_spec(or_default(multicast_port, "1900"@)) is Some),
            r matches Some(c) ==> {
                &&& c.http_address@ == or_default(http_address, "localhost"@)
                &&& Some(c.http_port) == parse_u16_spec(or_default(http_port, "8080"@))
                &&& c.friendly_name@ == or_default(friendly_name, "Rust DLNA Server"@)
                &&& c.multicast_address@ == or_default(multicast_address, "239.255.255.250"@)
                &&& Some(c.multicast_port) == parse_u16_spec(or_default(multicast_port, "1900"@))
                &&& c.media_directory@ == or_default(media_directory, "./media"@)
            },
    {
        let address = match http_address {
            Some(s) => s,
            None => String::from_str("localhost"),
        };
        let http_port_text = match http_port {
            Some(s) => s,
            None => String::from_str("8080"),
        };
        let name = match friendly_name {
            Some(s) => s,
            None => String::from_str("Rust DLNA Server"),
        };
        let mc_address = match multicast_address {
            Some(s) => s,
            None => String::from_str("239.255.255.250"),
        };
        let mc_port_text = match multicast_port {
            Some(s) => s,
            None => String::from_str("1900"),
        };
        let directory = match media_directory {
            Some(s) => s,
            None => String::from_str("./media"),
        };
        let parsed_http_port = match parse_u16(http_port_text.as_str()) {
            Some(p) => p,
            None => {
                return None;
            },
        };
        let parsed_mc_port = match parse_u16(mc_port_text.as_str()) {
            Some(p) => p,
            None => {
                return None;
            },
        };
        Some(
            Config {
                http_address: address,
                http_port: parsed_http_port,
                friendly_name: name,
                multicast_address: mc_address,
                multicast_port: parsed_mc_port,
                media_directory: directory,
            },
        )
    }
}

} // verus!
