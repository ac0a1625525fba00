use meshlet_scene::DataUri;
use meshlet_scene::DataUriDecodeError;
use meshlet_scene::split_once;

#[test]
fn split_once_at_first_occurrence() {
    assert_eq!(split_once("a,b", ','), Some(("a", "b")));
    assert_eq!(split_once("a,b,c", ','), Some(("a", "b,c")));
    assert_eq!(split_once(",x", ','), Some(("", "x")));
    assert_eq!(split_once("x,", ','), Some(("x", "")));
}

#[test]
fn split_once_without_delimiter() {
    assert_eq!(split_once("abc", ','), None);
    assert_eq!(split_once("", ','), None);
}

#[test]
fn parse_base64_data_uri() {
    let uri = "data:application/octet-stream;base64,aGVsbG8=";
    let d = DataUri::parse(uri).unwrap();
    assert_eq!(d.mime_type, "application/octet-stream");
    assert!(d.base64);
    assert_eq!(d.data, "aGVsbG8=");
    assert_eq!(d.decode().unwrap(), b"hello");
}

#[test]
fn parse_plain_data_uri() {
    let uri = "data:text/plain,hi there";
    let d = DataUri::parse(uri).unwrap();
    assert_eq!(d.mime_type, "text/plain");
    assert!(!d.base64);
    assert_eq!(d.data, "hi there");
    assert_eq!(d.decode().unwrap(), b"hi there");
}

#[test]
fn parse_empty_mime_type() {
    let d = DataUri::parse("data:,x").unwrap();
    assert_eq!(d.mime_type, "");
    assert!(!d.base64);
    assert_eq!(d.data, "x");
}

#[test]
fn parse_rejects_other_schemes() {
    assert!(DataUri::parse("http://example.com").is_err());
    assert!(DataUri::parse("").is_err());
    assert!(DataUri::parse("dat").is_err());
}

#[test]
fn parse_rejects_missing_comma() {
    assert!(DataUri::parse("data:application/octet-stream;base64").is_err());
}

#[test]
fn decode_rejects_invalid_base64() {
    let d = DataUri::parse("data:application/gltf-buffer;base64,!!!").unwrap();
    assert!(d.base64);
    assert_eq!(d.decode(), Err(DataUriDecodeError::InvalidBase64));
}

#[test]
fn decode_empty_base64_payload() {
    let d = DataUri::parse("data:application/octet-stream;base64,").unwrap();
    assert!(d.base64);
    assert_eq!(d.decode().unwrap(), Vec::<u8>::new());
}
