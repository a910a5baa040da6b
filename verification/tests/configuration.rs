use dlna_server::config::Config;
use dlna_server::numerals::parse_u16;
use dlna_server::numerals::u16_to_string;

#[test]
fn ports_parse_as_decimal_numbers() {
    assert_eq!(parse_u16("8080"), Some(8080));
    assert_eq!(parse_u16("0"), Some(0));
    assert_eq!(parse_u16("+80"), Some(80));
    assert_eq!(parse_u16("65535"), Some(65535));
    assert_eq!(parse_u16("00001900"), Some(1900));
    assert_eq!(parse_u16("65536"), None);
    assert_eq!(parse_u16("99999999999"), None);
    assert_eq!(parse_u16(""), None);
    assert_eq!(parse_u16("+"), None);
    assert_eq!(parse_u16("80a"), None);
    assert_eq!(parse_u16("-1"), None);
    assert_eq!(parse_u16(" 80"), None);
}

#[test]
fn numbers_print_back_as_decimal() {
    assert_eq!(u16_to_string(0), "0");
    assert_eq!(u16_to_string(7), "7");
    assert_eq!(u16_to_string(1900), "1900");
    assert_eq!(u16_to_string(65535), "65535");
}

#[test]
fn printed_ports_parse_back() {
    for p in [0u16, 1, 9, 10, 80, 1900, 8080, 65535] {
        assert_eq!(parse_u16(&u16_to_string(p)), Some(p));
    }
}

#[test]
fn absent_values_fall_back_to_defaults() {
    let c = Config::resolve(None, None, None, None, None, None).expect("defaults resolve");
    assert_eq!(c.http_address, "localhost");
    assert_eq!(c.http_port, 8080);
    assert_eq!(c.friendly_name, "Rust DLNA Server");
    assert_eq!(c.multicast_address, "239.255.255.250");
    assert_eq!(c.multicast_port, 1900);
    assert_eq!(c.media_directory, "./media");
}

#[test]
fn given_values_are_taken_over_defaults() {
    let c = Config::resolve(
        Some("192.168.0.97".to_owned()),
        Some("9000".to_owned()),
        Some("Den Server".to_owned()),
        Some("239.1.2.3".to_owned()),
        Some("1901".to_owned()),
        Some("/srv/media".to_owned()),
    )
    .expect("resolves");
    assert_eq!(c.http_address, "192.168.0.97");
    assert_eq!(c.http_port, 9000);
    assert_eq!(c.friendly_name, "Den Server");
    assert_eq!(c.multicast_address, "239.1.2.3");
    assert_eq!(c.multicast_port, 1901);
    assert_eq!(c.media_directory, "/srv/media");
}

#[test]
fn unparseable_port_fails_resolution() {
    assert!(Config::resolve(None, Some("eighty".to_owned()), None, None, None, None).is_none());
    assert!(Config::resolve(None, None, None, None, Some("70000".to_owned()), None).is_none());
}
