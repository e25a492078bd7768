use duck_rage::errors::RageError;
use duck_rage::payload::extract;

#[test]
fn extracts_string_field_verbatim() {
    assert_eq!(extract("{\"a\": \"x\"}", "a").unwrap(), "x");
    assert_eq!(extract("{\"pw\": \" padded \"}", "pw").unwrap(), " padded ");
}

#[test]
fn surrounding_whitespace_is_trimmed_before_parsing() {
    assert_eq!(extract("  \n {\"a\": \"x\"} \n ", "a").unwrap(), "x");
}

#[test]
fn absent_key_is_key_not_found() {
    let err = extract("{\"a\": \"x\"}", "b").unwrap_err();
    assert!(matches!(err, RageError::KeyNotFound { .. }));
    assert_eq!(err.message(), "Key 'b' not found in secrets file");
}

#[test]
fn non_string_value_is_key_type_error() {
    let err = extract("{\"a\": 5}", "a").unwrap_err();
    assert!(matches!(err, RageError::KeyType { .. }));
    assert_eq!(
        err.message(),
        "Key 'a' in secrets file is not a JSON string (got: number)"
    );
    let err = extract("{\"a\": [1, 2]}", "a").unwrap_err();
    assert!(matches!(err, RageError::KeyType { .. }));
    let err = extract("{\"a\": null}", "a").unwrap_err();
    assert!(matches!(err, RageError::KeyType { .. }));
}

#[test]
fn invalid_document_is_malformed_payload() {
    for bad in ["not json", "", "[1, 2]", "\"just a string\"", "{\"a\": }"] {
        let err = extract(bad, "a").unwrap_err();
        assert!(
            matches!(err, RageError::MalformedPayload { .. }),
            "expected malformed payload for {:?}",
            bad
        );
    }
}
