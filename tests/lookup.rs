use std::collections::HashMap;

use geoiplocation::fallback::pairs_from_members;
use geoiplocation::json::JsonField;
use geoiplocation::location::location_from_members;
use geoiplocation::request::{api_key_query, join_path};
use geoiplocation::{decode_fallback, decode_location, request_url, LookupError};

fn some(s: &str) -> Option<String> {
    Some(s.to_string())
}

#[test]
fn request_url_example() {
    let url = request_url(Some("http://example.com/api/v1/iplocation"), "8.8.8.8", "testkey");
    assert_eq!(
        url,
        Ok("http://example.com/api/v1/iplocation/8.8.8.8?apikey=testkey".to_string())
    );
}

#[test]
fn request_url_without_base_is_configuration_error() {
    assert_eq!(request_url(None, "8.8.8.8", "testkey"), Err(LookupError::Configuration));
}

#[test]
fn request_url_with_invalid_base_is_construction_error() {
    assert_eq!(
        request_url(Some("not a url"), "8.8.8.8", "testkey"),
        Err(LookupError::UrlConstruction)
    );
    assert_eq!(
        request_url(Some("http://exa mple.com"), "8.8.8.8", "k"),
        Err(LookupError::UrlConstruction)
    );
}

#[test]
fn request_url_replaces_existing_query() {
    let url = request_url(Some("http://example.com/api?lang=en"), "1.1.1.1", "k");
    assert_eq!(url, Ok("http://example.com/api?apikey=k".to_string()));
}

#[test]
fn request_url_normalises_through_url_parser() {
    let url = request_url(Some("HTTP://Example.COM"), "8.8.8.8", "a b");
    assert_eq!(url, Ok("http://example.com/8.8.8.8?apikey=a%20b".to_string()));
}

#[test]
fn join_path_and_key_query() {
    assert_eq!(join_path("http://h", "1.2.3.4"), "http://h/1.2.3.4");
    assert_eq!(join_path("", ""), "/");
    assert_eq!(api_key_query("testkey"), "apikey=testkey");
    assert_eq!(api_key_query(""), "apikey=");
}

#[test]
fn decode_location_all_fields() {
    let body = r#"{"ip":"8.8.8.8","city":"","country":"United States","continent":"North America"}"#;
    let loc = decode_location(body).unwrap();
    assert_eq!(loc.ip, some("8.8.8.8"));
    assert_eq!(loc.city, some(""));
    assert_eq!(loc.country, some("United States"));
    assert_eq!(loc.continent, some("North America"));
}

#[test]
fn decode_location_missing_fields() {
    let loc = decode_location(r#"{"ip":"1.1.1.1","country":"Australia"}"#).unwrap();
    assert_eq!(loc.ip, some("1.1.1.1"));
    assert_eq!(loc.city, None);
    assert_eq!(loc.country, some("Australia"));
    assert_eq!(loc.continent, None);
}

#[test]
fn decode_location_null_fields() {
    let loc = decode_location(r#"{"ip":null,"city":"Sydney","country":null}"#).unwrap();
    assert_eq!(loc.ip, None);
    assert_eq!(loc.city, some("Sydney"));
    assert_eq!(loc.country, None);
    assert_eq!(loc.continent, None);
}

#[test]
fn decode_location_empty_object() {
    let loc = decode_location("{}").unwrap();
    assert_eq!(loc.ip, None);
    assert_eq!(loc.city, None);
    assert_eq!(loc.country, None);
    assert_eq!(loc.continent, None);
}

#[test]
fn decode_location_ignores_unknown_members() {
    let body = r#"{"ip":"9.9.9.9","lat":1.5,"tags":[1,2],"extra":{"a":true}}"#;
    let loc = decode_location(body).unwrap();
    assert_eq!(loc.ip, some("9.9.9.9"));
    assert_eq!(loc.city, None);
}

#[test]
fn decode_location_wrong_type_is_decode_error() {
    assert_eq!(
        decode_location(r#"{"ip":"8.8.8.8","city":42}"#).unwrap_err(),
        LookupError::Decode
    );
    assert_eq!(decode_location(r#"{"continent":false}"#).unwrap_err(), LookupError::Decode);
}

#[test]
fn decode_location_invalid_json_is_decode_error() {
    assert_eq!(decode_location("not json").unwrap_err(), LookupError::Decode);
    assert_eq!(decode_location("").unwrap_err(), LookupError::Decode);
    assert_eq!(decode_location(r#"["ip"]"#).unwrap_err(), LookupError::Decode);
    assert_eq!(decode_location(r#"{"ip":"8.8.8.8""#).unwrap_err(), LookupError::Decode);
}

#[test]
fn decode_fallback_keeps_every_member() {
    let body = r#"{"ip":"8.8.8.8","city":"","timezone":"America/Chicago","org":"Google"}"#;
    let pairs = decode_fallback(body).unwrap();
    assert_eq!(pairs.len(), 4);
    let map: HashMap<String, String> = pairs.into_iter().collect();
    assert_eq!(map.get("ip"), Some(&"8.8.8.8".to_string()));
    assert_eq!(map.get("city"), Some(&"".to_string()));
    assert_eq!(map.get("timezone"), Some(&"America/Chicago".to_string()));
    assert_eq!(map.get("org"), Some(&"Google".to_string()));
}

#[test]
fn decode_fallback_empty_object() {
    assert_eq!(decode_fallback("{}"), Ok(Vec::new()));
}

#[test]
fn decode_fallback_non_string_is_decode_error() {
    assert_eq!(decode_fallback(r#"{"ip":"8.8.8.8","lat":1.5}"#), Err(LookupError::Decode));
    assert_eq!(decode_fallback(r#"{"ip":null}"#), Err(LookupError::Decode));
}

#[test]
fn decode_fallback_invalid_json_is_decode_error() {
    assert_eq!(decode_fallback("<html>"), Err(LookupError::Decode));
    assert_eq!(decode_fallback(r#""text""#), Err(LookupError::Decode));
}

fn members(items: Vec<(&str, JsonField)>) -> Vec<(String, JsonField)> {
    items.into_iter().map(|(k, v)| (k.to_string(), v)).collect()
}

#[test]
fn location_from_members_reads_known_names() {
    let ms = members(vec![
        ("city", JsonField::Null),
        ("continent", JsonField::Text("Oceania".to_string())),
        ("ip", JsonField::Text("1.1.1.1".to_string())),
        ("lat", JsonField::Other),
    ]);
    let loc = location_from_members(&ms).unwrap();
    assert_eq!(loc.ip, some("1.1.1.1"));
    assert_eq!(loc.city, None);
    assert_eq!(loc.country, None);
    assert_eq!(loc.continent, some("Oceania"));
}

#[test]
fn location_from_members_later_duplicate_counts() {
    let ms = members(vec![
        ("ip", JsonField::Text("1.1.1.1".to_string())),
        ("ip", JsonField::Text("2.2.2.2".to_string())),
        ("country", JsonField::Text("Spain".to_string())),
        ("country", JsonField::Null),
    ]);
    let loc = location_from_members(&ms).unwrap();
    assert_eq!(loc.ip, some("2.2.2.2"));
    assert_eq!(loc.country, None);
}

#[test]
fn location_from_members_other_value_is_decode_error() {
    let ms = members(vec![("ip", JsonField::Text("1.1.1.1".to_string())), ("country", JsonField::Other)]);
    assert_eq!(location_from_members(&ms).unwrap_err(), LookupError::Decode);
}

#[test]
fn pairs_from_members_keeps_order_and_values() {
    let ms = members(vec![
        ("zone", JsonField::Text("UTC".to_string())),
        ("ip", JsonField::Text("8.8.8.8".to_string())),
    ]);
    assert_eq!(
        pairs_from_members(&ms),
        Ok(vec![
            ("zone".to_string(), "UTC".to_string()),
            ("ip".to_string(), "8.8.8.8".to_string()),
        ])
    );
    assert_eq!(pairs_from_members(&Vec::new()), Ok(Vec::new()));
}

#[test]
fn pairs_from_members_non_string_is_decode_error() {
    let ms = members(vec![("ip", JsonField::Text("8.8.8.8".to_string())), ("ok", JsonField::Null)]);
    assert_eq!(pairs_from_members(&ms), Err(LookupError::Decode));
}
