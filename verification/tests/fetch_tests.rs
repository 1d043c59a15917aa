use ops_tool::error::Error;
use ops_tool::fetch::{classify_response, parse_content_length};
use ops_tool::tool::BodyKind;

#[test]
fn not_found_maps_to_version_not_available() {
    let r = classify_response(404, &None, &None);
    assert!(matches!(r, Err(Error::VersionNotAvailable)));
}

#[test]
fn other_statuses_are_surfaced() {
    assert!(matches!(
        classify_response(500, &Some("12".to_string()), &Some("application/json".to_string())),
        Err(Error::UnexpectedStatus(500))
    ));
    assert!(matches!(
        classify_response(302, &None, &None),
        Err(Error::UnexpectedStatus(302))
    ));
}

#[test]
fn missing_length_is_refused() {
    let r = classify_response(200, &None, &Some("application/zip".to_string()));
    assert!(matches!(r, Err(Error::MissingLength)));
}

#[test]
fn unusable_length_is_refused() {
    let r = classify_response(200, &Some("12a".to_string()), &Some("x".to_string()));
    assert!(matches!(r, Err(Error::MissingLength)));
    let r = classify_response(200, &Some("".to_string()), &Some("x".to_string()));
    assert!(matches!(r, Err(Error::MissingLength)));
}

#[test]
fn missing_content_type_is_refused() {
    let r = classify_response(200, &Some("12".to_string()), &None);
    assert!(matches!(r, Err(Error::MissingContentType)));
}

#[test]
fn good_zip_response_is_classified() {
    let r = classify_response(
        200,
        &Some("1234".to_string()),
        &Some("application/zip".to_string()),
    )
    .unwrap();
    assert_eq!(r.length, 1234);
    assert!(matches!(r.kind, BodyKind::Zip));
}

#[test]
fn other_content_types_are_raw() {
    let r = classify_response(
        200,
        &Some("7".to_string()),
        &Some("application/octet-stream".to_string()),
    )
    .unwrap();
    assert_eq!(r.length, 7);
    assert!(matches!(r.kind, BodyKind::Raw));
}

#[test]
fn content_length_parsing() {
    assert_eq!(parse_content_length("0"), Some(0));
    assert_eq!(parse_content_length("0123"), Some(123));
    assert_eq!(parse_content_length("18446744073709551615"), Some(u64::MAX));
    assert_eq!(parse_content_length("18446744073709551616"), None);
    assert_eq!(parse_content_length("-1"), None);
    assert_eq!(parse_content_length(" 12"), None);
}
