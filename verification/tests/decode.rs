use image::ImageFormat;
use walltz::cache::{CacheEntry, ImageCache};
use walltz::json::{JsonKind, JsonValue};
use walltz::picture::{FileFacts, ImageUrl, SearchParameters};
use walltz::url_supplier::{
    decimal_text, DecodeError, Expected, ImageId, ImageTypeDecodeMethod, JsonResponseDecoder,
    ResponseData, ResponseFormat, ResponseResultLocation, SupplierError,
};

fn parameters(skip_cache: bool) -> SearchParameters {
    SearchParameters { tags: vec![], aspect_ratios: vec![], skip_cache }
}

fn empty_cache() -> ImageCache {
    ImageCache::open("/cache", vec![])
}

fn cached(paths: &[&str]) -> ImageCache {
    let entries = paths
        .iter()
        .map(|p| CacheEntry {
            path: p.to_string(),
            facts: FileFacts { is_file: true, absolute: Some(p.to_string()) },
            age: None,
        })
        .collect();
    ImageCache::open("/cache", entries)
}

fn array_decoder() -> JsonResponseDecoder {
    JsonResponseDecoder {
        id: ImageId::Key { key: "id".to_string() },
        location: ResponseResultLocation::Array { key: "results".to_string() },
        image_url_key: "url".to_string(),
        image_type: ImageTypeDecodeMethod::Path,
    }
}

fn entry_decoder() -> JsonResponseDecoder {
    JsonResponseDecoder {
        id: ImageId::Key { key: "identifier".to_string() },
        location: ResponseResultLocation::Entry { key: "data".to_string() },
        image_url_key: "link".to_string(),
        image_type: ImageTypeDecodeMethod::Path,
    }
}

fn decode(
    decoder: &JsonResponseDecoder,
    body: &str,
    skip_cache: bool,
    cache: &ImageCache,
) -> Result<ImageUrl, DecodeError> {
    decoder.decode(body.as_bytes(), &parameters(skip_cache), cache)
}

#[test]
fn array_location_takes_the_first_entry() {
    let body = r#"{"results":[{"id":"42","url":"http://x/y.png"},{"id":"43","url":"http://x/z.jpg"}]}"#;
    let reference = decode(&array_decoder(), body, false, &empty_cache()).ok().unwrap();
    assert_eq!(reference.get_stem(), "42");
    assert_eq!(reference.get_url(), "http://x/y.png");
    assert_eq!(reference.get_format(), ImageFormat::Png);
}

#[test]
fn entry_location_coerces_a_numeric_identifier() {
    let body = r#"{"data":{"identifier":7,"link":"http://x/z.jpg"}}"#;
    let reference = decode(&entry_decoder(), body, false, &empty_cache()).ok().unwrap();
    assert_eq!(reference.get_stem(), "7");
    assert_eq!(reference.get_url(), "http://x/z.jpg");
    assert_eq!(reference.get_format(), ImageFormat::Jpeg);
}

#[test]
fn negative_and_fractional_identifiers_are_kept_as_printed() {
    let body = r#"{"data":{"identifier":-12,"link":"http://x/z.jpg"}}"#;
    let reference = decode(&entry_decoder(), body, false, &empty_cache()).ok().unwrap();
    assert_eq!(reference.get_stem(), "-12");
    let body = r#"{"data":{"identifier":1.5,"link":"http://x/z.jpg"}}"#;
    let reference = decode(&entry_decoder(), body, false, &empty_cache()).ok().unwrap();
    assert_eq!(reference.get_stem(), "1.5");
}

#[test]
fn cache_skip_passes_over_cached_entries() {
    let body = r#"{"results":[
        {"id":"1","url":"http://x/1.png"},
        {"id":"2","url":"http://x/2.jpg"},
        {"id":"3","url":"http://x/3.gif"}]}"#;
    let cache = cached(&["/cache/1.png", "/cache/2.jpg"]);
    let reference = decode(&array_decoder(), body, true, &cache).ok().unwrap();
    assert_eq!(reference.get_stem(), "3");
    assert_eq!(reference.get_url(), "http://x/3.gif");
    assert_eq!(reference.get_format(), ImageFormat::Gif);
}

#[test]
fn without_cache_skip_cached_entries_are_taken() {
    let body = r#"{"results":[{"id":"1","url":"http://x/1.png"},{"id":"3","url":"http://x/3.gif"}]}"#;
    let cache = cached(&["/cache/1.png"]);
    let reference = decode(&array_decoder(), body, false, &cache).ok().unwrap();
    assert_eq!(reference.get_stem(), "1");
}

#[test]
fn cache_skip_falls_back_to_the_first_entry() {
    let body = r#"{"results":[{"id":"1","url":"http://x/1.png"},{"id":"2","url":"http://x/2.jpg"}]}"#;
    let cache = cached(&["/cache/2.jpg", "/cache/1.png"]);
    let reference = decode(&array_decoder(), body, true, &cache).ok().unwrap();
    assert_eq!(reference.get_stem(), "1");
    assert_eq!(reference.get_format(), ImageFormat::Png);
}

#[test]
fn cache_skip_stops_at_an_entry_that_fails() {
    let body = r#"{"results":[{"id":"1","url":"http://x/1.png"},{"id":"2"},{"id":"3","url":"http://x/3.gif"}]}"#;
    let cache = cached(&["/cache/1.png"]);
    let result = decode(&array_decoder(), body, true, &cache);
    assert!(matches!(result, Err(DecodeError::MissingField { ref key }) if key == "url"));
}

#[test]
fn cache_skip_on_an_empty_array_reports_no_entries() {
    let result = decode(&array_decoder(), r#"{"results":[]}"#, true, &empty_cache());
    assert!(matches!(result, Err(DecodeError::NoEntries { ref key }) if key == "results"));
    let result = decode(&array_decoder(), r#"{"results":[]}"#, false, &empty_cache());
    assert!(matches!(result, Err(DecodeError::NoEntries { ref key }) if key == "results"));
}

#[test]
fn missing_url_field_is_a_field_error() {
    let body = r#"{"results":[{"id":"42"}]}"#;
    let result = decode(&array_decoder(), body, false, &empty_cache());
    assert!(matches!(result, Err(DecodeError::MissingField { ref key }) if key == "url"));
}

#[test]
fn missing_identifier_field_is_a_field_error() {
    let body = r#"{"results":[{"url":"http://x/y.png"}]}"#;
    let result = decode(&array_decoder(), body, false, &empty_cache());
    assert!(matches!(result, Err(DecodeError::MissingField { ref key }) if key == "id"));
}

#[test]
fn missing_location_field_is_a_field_error() {
    let result = decode(&array_decoder(), r#"{"other":[]}"#, false, &empty_cache());
    assert!(matches!(result, Err(DecodeError::MissingField { ref key }) if key == "results"));
    let result = decode(&entry_decoder(), r#"{"other":{}}"#, false, &empty_cache());
    assert!(matches!(result, Err(DecodeError::MissingField { ref key }) if key == "data"));
}

#[test]
fn wrong_types_name_the_field_and_both_kinds() {
    let result = decode(&array_decoder(), r#"{"results":{"id":"1"}}"#, false, &empty_cache());
    assert!(matches!(
        result,
        Err(DecodeError::WrongType { ref key, expected: Expected::Array, actual: JsonKind::Object })
            if key == "results"
    ));
    let body = r#"{"results":[{"id":true,"url":"http://x/y.png"}]}"#;
    let result = decode(&array_decoder(), body, false, &empty_cache());
    assert!(matches!(
        result,
        Err(DecodeError::WrongType { ref key, expected: Expected::TextOrNumber, actual: JsonKind::Bool })
            if key == "id"
    ));
    let body = r#"{"results":[{"id":"1","url":17}]}"#;
    let result = decode(&array_decoder(), body, false, &empty_cache());
    assert!(matches!(
        result,
        Err(DecodeError::WrongType { ref key, expected: Expected::Text, actual: JsonKind::Number })
            if key == "url"
    ));
}

#[test]
fn an_entry_that_is_no_object_is_an_error() {
    let result = decode(&array_decoder(), r#"{"results":["text"]}"#, false, &empty_cache());
    assert!(matches!(result, Err(DecodeError::NotAnObject { actual: JsonKind::Text })));
    let result = decode(&entry_decoder(), r#"{"data":null}"#, false, &empty_cache());
    assert!(matches!(result, Err(DecodeError::NotAnObject { actual: JsonKind::Null })));
}

#[test]
fn a_body_that_is_no_json_object_is_malformed() {
    assert!(matches!(
        decode(&array_decoder(), "not json", false, &empty_cache()),
        Err(DecodeError::Malformed)
    ));
    assert!(matches!(
        decode(&array_decoder(), "[1,2]", false, &empty_cache()),
        Err(DecodeError::Malformed)
    ));
    assert!(matches!(decode(&array_decoder(), "", false, &empty_cache()), Err(DecodeError::Malformed)));
}

#[test]
fn unknown_extension_of_the_url_is_an_error() {
    let body = r#"{"results":[{"id":"1","url":"http://x/y.txt"}]}"#;
    let result = decode(&array_decoder(), body, false, &empty_cache());
    assert!(matches!(result, Err(DecodeError::UnknownFormat { ref url }) if url == "http://x/y.txt"));
}

#[test]
fn a_url_that_does_not_parse_is_an_error() {
    let body = r#"{"results":[{"id":"1","url":"no scheme/y.png"}]}"#;
    let result = decode(&array_decoder(), body, false, &empty_cache());
    assert!(matches!(result, Err(DecodeError::InvalidUrl { ref url }) if url == "no scheme/y.png"));
}

fn mime_decoder() -> JsonResponseDecoder {
    JsonResponseDecoder {
        id: ImageId::Key { key: "id".to_string() },
        location: ResponseResultLocation::Entry { key: "image".to_string() },
        image_url_key: "src".to_string(),
        image_type: ImageTypeDecodeMethod::Key { key: "mime".to_string() },
    }
}

#[test]
fn format_is_read_from_the_mime_type() {
    let body = r#"{"image":{"id":"a","src":"http://x/download?id=9","mime":"image/webp"}}"#;
    let reference = decode(&mime_decoder(), body, false, &empty_cache()).ok().unwrap();
    assert_eq!(reference.get_stem(), "a");
    assert_eq!(reference.get_url(), "http://x/download?id=9");
    assert_eq!(reference.get_format(), ImageFormat::WebP);
}

#[test]
fn mime_type_errors_are_told_apart() {
    let body = r#"{"image":{"id":"a","src":"http://x/a","mime":"text/plain"}}"#;
    let result = decode(&mime_decoder(), body, false, &empty_cache());
    assert!(matches!(result, Err(DecodeError::UnknownMimeType { ref mime_type }) if mime_type == "text/plain"));
    let body = r#"{"image":{"id":"a","src":"http://x/a"}}"#;
    let result = decode(&mime_decoder(), body, false, &empty_cache());
    assert!(matches!(result, Err(DecodeError::MissingField { ref key }) if key == "mime"));
    let body = r#"{"image":{"id":"a","src":"http://x/a","mime":[]}}"#;
    let result = decode(&mime_decoder(), body, false, &empty_cache());
    assert!(matches!(
        result,
        Err(DecodeError::WrongType { ref key, expected: Expected::Text, actual: JsonKind::Array })
            if key == "mime"
    ));
}

#[test]
fn errors_come_in_the_order_identifier_url_format() {
    let body = r#"{"image":{"mime":"text/plain"}}"#;
    let result = decode(&mime_decoder(), body, false, &empty_cache());
    assert!(matches!(result, Err(DecodeError::MissingField { ref key }) if key == "id"));
    let body = r#"{"image":{"id":"a","mime":"text/plain"}}"#;
    let result = decode(&mime_decoder(), body, false, &empty_cache());
    assert!(matches!(result, Err(DecodeError::MissingField { ref key }) if key == "src"));
    let body = r#"{"image":{"id":"a","src":"not a url","mime":"text/plain"}}"#;
    let result = decode(&mime_decoder(), body, false, &empty_cache());
    assert!(matches!(result, Err(DecodeError::UnknownMimeType { .. })));
}

#[test]
fn random_identifiers_are_decimal_numbers() {
    let decoder = JsonResponseDecoder {
        id: ImageId::Random,
        location: ResponseResultLocation::Entry { key: "data".to_string() },
        image_url_key: "link".to_string(),
        image_type: ImageTypeDecodeMethod::Path,
    };
    let body = r#"{"data":{"link":"http://x/z.jpg"}}"#;
    let reference = decode(&decoder, body, false, &empty_cache()).ok().unwrap();
    let number: u32 = reference.get_stem().parse().unwrap();
    assert_eq!(reference.get_stem(), number.to_string());
}

#[test]
fn decode_entry_uses_the_number_at_hand() {
    let decoder = JsonResponseDecoder {
        id: ImageId::Random,
        location: ResponseResultLocation::Entry { key: "data".to_string() },
        image_url_key: "link".to_string(),
        image_type: ImageTypeDecodeMethod::Path,
    };
    let entry = JsonValue::parse(br#"{"link":"http://x/z.bmp"}"#).unwrap();
    let reference = decoder.decode_entry(&entry, 4_000_000_123).ok().unwrap();
    assert_eq!(reference.get_stem(), "4000000123");
    assert_eq!(reference.get_format(), ImageFormat::Bmp);
}

#[test]
fn decimal_text_writes_every_digit() {
    assert_eq!(decimal_text(0), "0");
    assert_eq!(decimal_text(7), "7");
    assert_eq!(decimal_text(10), "10");
    assert_eq!(decimal_text(1234567890), "1234567890");
    assert_eq!(decimal_text(u32::MAX), "4294967295");
}

#[test]
fn decode_base_reads_a_parsed_document() {
    let document = JsonValue::parse(br#"{"results":[{"id":5,"url":"https://x/five.tiff"}]}"#).unwrap();
    let reference = array_decoder()
        .decode_base(&document, &parameters(false), &empty_cache())
        .ok()
        .unwrap();
    assert_eq!(reference.get_stem(), "5");
    assert_eq!(reference.get_format(), ImageFormat::Tiff);
}

#[test]
fn network_and_decode_errors_are_distinct() {
    let schema = || ResponseData {
        format: ResponseFormat::Json,
        id: ImageId::Key { key: "id".to_string() },
        location: ResponseResultLocation::Array { key: "results".to_string() },
        image_url_key: "url".to_string(),
        image_type: ImageTypeDecodeMethod::Path,
    };
    let failed = schema().process_response(
        Err("connection refused".to_string()),
        &parameters(false),
        &empty_cache(),
    );
    assert!(matches!(failed, Err(SupplierError::Network(ref reason)) if reason == "connection refused"));
    let unread = schema().process_response(
        Ok(b"{}".to_vec()),
        &parameters(false),
        &empty_cache(),
    );
    assert!(matches!(
        unread,
        Err(SupplierError::Decode(DecodeError::MissingField { ref key })) if key == "results"
    ));
    let read = schema().process_response(
        Ok(br#"{"results":[{"id":"42","url":"http://x/y.png"}]}"#.to_vec()),
        &parameters(false),
        &empty_cache(),
    );
    assert!(matches!(read, Ok(ref reference) if reference.get_stem() == "42"));
}

#[test]
fn json_values_keep_their_kinds() {
    let document = JsonValue::parse(br#"{"a":null,"b":true,"c":1,"d":"x","e":[],"f":{}}"#).unwrap();
    let fields = match document {
        JsonValue::Object(fields) => fields,
        _ => panic!("not an object"),
    };
    let kinds: Vec<(String, JsonKind)> =
        fields.iter().map(|f| (f.key.clone(), f.value.kind())).collect();
    assert_eq!(
        kinds,
        vec![
            ("a".to_string(), JsonKind::Null),
            ("b".to_string(), JsonKind::Bool),
            ("c".to_string(), JsonKind::Number),
            ("d".to_string(), JsonKind::Text),
            ("e".to_string(), JsonKind::Array),
            ("f".to_string(), JsonKind::Object),
        ]
    );
    assert!(JsonValue::parse(b"{").is_none());
}

#[test]
fn an_identifier_that_is_no_file_name_is_refused() {
    for unsafe_id in ["../../etc/x", "a/b", "", ".", "..", "a\\b", "/"] {
        let body = format!(
            r#"{{"results":[{{"id":{},"url":"http://x/y.png"}}]}}"#,
            serde_json::to_string(unsafe_id).unwrap()
        );
        let result = decode(&array_decoder(), &body, false, &empty_cache());
        assert!(
            matches!(
                result,
                Err(DecodeError::UnsafeIdentifier { ref key, ref identifier })
                    if key == "id" && identifier == unsafe_id
            ),
            "identifier {:?}",
            unsafe_id
        );
    }
}

#[test]
fn identifiers_with_dots_inside_are_file_names() {
    for safe_id in ["a.b", "..a", "a..", "...", "x y", "-1"] {
        let body = format!(
            r#"{{"results":[{{"id":{},"url":"http://x/y.png"}}]}}"#,
            serde_json::to_string(safe_id).unwrap()
        );
        let reference = decode(&array_decoder(), &body, false, &empty_cache()).ok().unwrap();
        assert_eq!(reference.get_stem(), safe_id);
    }
}

#[test]
fn an_unsafe_identifier_comes_before_a_missing_url() {
    let result = decode(&array_decoder(), r#"{"results":[{"id":"a/b"}]}"#, false, &empty_cache());
    assert!(matches!(result, Err(DecodeError::UnsafeIdentifier { .. })));
    assert_eq!(
        DecodeError::UnsafeIdentifier { key: "id".to_string(), identifier: "a/b".to_string() }
            .message(),
        "Key for id: id holds no file name: a/b"
    );
}
