use duck_rage::errors::{bind_error_message, usage, RageError};

#[test]
fn each_error_variant_renders_its_context() {
    let cases: Vec<(RageError, &str)> = vec![
        (
            RageError::UnsupportedBackend { given: "oracle".to_string() },
            "Unknown db_type 'oracle'. Supported: postgres, mysql",
        ),
        (
            RageError::InvalidPort { given: "9x".to_string() },
            "Invalid port '9x': must be an integer",
        ),
        (
            RageError::Io { path: "s.age".to_string(), detail: "denied".to_string() },
            "Cannot read file 's.age': denied",
        ),
        (
            RageError::IdentityParse { path: "id.txt".to_string(), detail: "bad".to_string() },
            "Failed to parse identity file 'id.txt': bad",
        ),
        (
            RageError::IdentityLoad { path: "id.txt".to_string(), detail: "bad".to_string() },
            "Failed to load identities from 'id.txt': bad",
        ),
        (
            RageError::Decryption {
                path: "s.age".to_string(),
                identity_path: "id.txt".to_string(),
                detail: "no keys".to_string(),
            },
            "Failed to decrypt 's.age' with identity 'id.txt': no keys",
        ),
        (
            RageError::MalformedPayload { detail: "eof".to_string() },
            "secrets file is not valid JSON: eof",
        ),
        (
            RageError::KeyNotFound { key: "pw".to_string() },
            "Key 'pw' not found in secrets file",
        ),
        (
            RageError::KeyType { key: "pw".to_string(), kind: "array".to_string() },
            "Key 'pw' in secrets file is not a JSON string (got: array)",
        ),
        (
            RageError::StatementExecution { detail: "boom".to_string() },
            "Failed to run registration statement: boom",
        ),
    ];
    for (err, expected) in cases {
        assert_eq!(err.message(), expected);
    }
}

#[test]
fn usage_synopsis_lists_all_eight_parameters() {
    let u = usage();
    assert!(u.starts_with("Usage: duck_rage("));
    for param in [
        "db_type", "host", "port", "database", "user", "secrets_file", "secret_key",
        "identity_file",
    ] {
        assert!(u.contains(param), "usage synopsis misses {}", param);
    }
}

#[test]
fn bind_error_message_appends_usage() {
    let err = RageError::InvalidPort { given: "q".to_string() };
    let msg = bind_error_message(&err);
    assert_eq!(
        msg,
        format!("Invalid port 'q': must be an integer\n\n{}", usage())
    );
}
