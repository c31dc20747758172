use ptv_departures::numfmt::{hex_of_bytes, u64_to_string};
use ptv_departures::ptv::create_view_departures_request;
use ptv_departures::stations::get_stop_id_from_name;
use ptv_departures::strutil::str_eq;

#[test]
fn test_create_view_departures_request() {
    let api_key: &[u8] = b"9c132d31-6a30-4cac-8d8b-8a1970834799"; // fake key
    let uri = "http://example.com";
    let url = create_view_departures_request(api_key, 32, 1, 1170, uri.to_string());
    assert_eq!(url, "http://example.com/v3/departures/route_type/0/stop/1170?platform_numbers=1&max_results=2&include_cancelled=false&devid=32&signature=234004d132ed696e31cbb23f703743df0f2d7ae3")
}

#[test]
fn test_signing_is_deterministic() {
    let api_key: &[u8] = b"9c132d31-6a30-4cac-8d8b-8a1970834799"; // fake key
    let first = create_view_departures_request(api_key, 32, 1, 1170, "http://example.com".to_string());
    let second = create_view_departures_request(api_key, 32, 1, 1170, "http://example.com".to_string());
    assert_eq!(first, second);
}

#[test]
fn test_signing_differs_per_platform() {
    let api_key: &[u8] = b"9c132d31-6a30-4cac-8d8b-8a1970834799"; // fake key
    let platform_one = create_view_departures_request(api_key, 32, 1, 1170, "http://example.com".to_string());
    let platform_two = create_view_departures_request(api_key, 32, 2, 1170, "http://example.com".to_string());
    assert_ne!(platform_one, platform_two);
}

#[test]
fn test_station_lookup_known_names() {
    assert_eq!(get_stop_id_from_name("rushall"), Some(1170));
    assert_eq!(get_stop_id_from_name("bell"), Some(1019));
    assert_eq!(get_stop_id_from_name("southern cross"), Some(1181));
    assert_eq!(get_stop_id_from_name("west_richmond"), Some(1207));
}

#[test]
fn test_station_lookup_unknown_name() {
    assert_eq!(get_stop_id_from_name("nowhere"), None);
    assert_eq!(get_stop_id_from_name(""), None);
    assert_eq!(get_stop_id_from_name("rushall "), None);
}

#[test]
fn test_u64_to_string_renders_decimal() {
    assert_eq!(u64_to_string(0), "0");
    assert_eq!(u64_to_string(7), "7");
    assert_eq!(u64_to_string(1170), "1170");
    assert_eq!(u64_to_string(18446744073709551615), "18446744073709551615");
}

#[test]
fn test_hex_of_bytes_renders_lowercase_pairs() {
    assert_eq!(hex_of_bytes(&[]), "");
    assert_eq!(hex_of_bytes(&[0x00, 0xff, 0x1a]), "00ff1a");
    assert_eq!(hex_of_bytes(&[0x0b]), "0b");
}

#[test]
fn test_str_eq_compares_characters() {
    assert!(str_eq("rushall", "rushall"));
    assert!(!str_eq("rushall", "rushal"));
    assert!(!str_eq("rushall", "rushalL"));
    assert!(str_eq("", ""));
}
