//! The failure taxonomy of the provisioning pipeline.
//!
//! Every failure terminates the current call; none is silently
//! swallowed, and none carries decrypted plaintext or key material:
//! each variant holds only the offending value, path, key or the
//! underlying error text.

use vstd::prelude::*;
use vstd::string::StringExecFns;

verus! {

/// One failure of the provisioning pipeline.
#[derive(Debug)]
pub enum RageError {
    /// The backend-kind parameter names no supported backend. Carries
    /// the offending value, lowercased.
    UnsupportedBackend { given: String },
    /// The port parameter is not a decimal integer. Carries the
    /// offending literal.
    InvalidPort { given: String },
    /// The secrets file or the identity file could not be read.
    Io { path: String, detail: String },
    /// The identity file could not be parsed as identity material.
    IdentityParse { path: String, detail: String },
    /// The identity file parsed, but its entries could not be loaded
    /// as usable identities.
    IdentityLoad { path: String, detail: String },
    /// No identity unlocks the container, or the container is
    /// malformed.
    Decryption { path: String, identity_path: String, detail: String },
    /// The decrypted bytes are not a valid key/value document.
    MalformedPayload { detail: String },
    /// The requested field is absent from the decrypted document.
    KeyNotFound { key: String },
    /// The requested field is present but its value is not a string.
    /// Carries the kind of the value actually found.
    KeyType { key: String, kind: String },
    /// The backend connection rejected or failed to run the
    /// registration statement.
    StatementExecution { detail: String },
}

/// The descriptive text of a failure: the offending value, path or key
/// in context, never decrypted plaintext or key material.
pub open spec fn spec_message(e: RageError) -> Seq<char> {
    match e {
        RageError::UnsupportedBackend { given } => "Unknown db_type '"@ + given@
            + "'. Supported: postgres, mysql"@,
        RageError::InvalidPort { given } => "Invalid port '"@ + given@
            + "': must be an integer"@,
        RageError::Io { path, detail } => "Cannot read file '"@ + path@ + "': "@ + detail@,
        RageError::IdentityParse { path, detail } => "Failed to parse identity file '"@ + path@
            + "': "@ + detail@,
        RageError::IdentityLoad { path, detail } => "Failed to load identities from '"@ + path@
            + "': "@ + detail@,
        RageError::Decryption { path, identity_path, detail } => "Failed to decrypt '"@ + path@
            + "' with identity '"@ + identity_path@ + "': "@ + detail@,
        RageError::MalformedPayload { detail } => "secrets file is not valid JSON: "@ + detail@,
        RageError::KeyNotFound { key } => "Key '"@ + key@ + "' not found in secrets file"@,
        RageError::KeyType { key, kind } => "Key '"@ + key@
            + "' in secrets file is not a JSON string (got: "@ + kind@ + ")"@,
        RageError::StatementExecution { detail } => "Failed to run registration statement: "@
            + detail@,
    }
}

impl RageError {
    /// Renders the failure as its descriptive text.
    pub fn message(&self) -> (r: String)
        ensures
            r@ == spec_message(*self),
    {
        let mut s = String::new();
        match self {
            RageError::UnsupportedBackend { given } => {
                s.append("Unknown db_type '");
                s.append(given.as_str());
                s.append("'. Supported: postgres, mysql");
            },
            RageError::InvalidPort { given } => {
                s.append("Invalid port '");
                s.append(given.as_str());
                s.append("': must be an integer");
            },
            RageError::Io { path, detail } => {
                s.append("Cannot read file '");
                s.append(path.as_str());
                s.append("': ");
                s.append(detail.as_str());
            },
            RageError::IdentityParse { path, detail } => {
                s.append("Failed to parse identity file '");
                s.append(path.as_str());
                s.append("': ");
                s.append(detail.as_str());
            },
            RageError::IdentityLoad { path, detail } => {
                s.append("Failed to load identities from '");
                s.append(path.as_str());
                s.append("': ");
                s.append(detail.as_str());
            },
            RageError::Decryption { path, identity_path, detail } => {
                s.append("Failed to decrypt '");
                s.append(path.as_str());
                s.append("' with identity '");
                s.append(identity_path.as_str());
                s.append("': ");
                s.append(detail.as_str());
            },
            RageError::MalformedPayload { detail } => {
                s.append("secrets file is not valid JSON: ");
                s.append(detail.as_str());
            },
            RageError::KeyNotFound { key } => {
                s.append("Key '");
                s.append(key.as_str());
                s.append("' not found in secrets file");
            },
            RageError::KeyType { key, kind } => {
                s.append("Key '");
                s.append(key.as_str());
                s.append("' in secrets file is not a JSON string (got: ");
                s.append(kind.as_str());
                s.append(")");
            },
            RageError::StatementExecution { detail } => {
                s.append("Failed to run registration statement: ");
                s.append(detail.as_str());
            },
        }
        proof {
            assert(s@ =~= spec_message(*self));
        }
        s
    }
}

/// The usage synopsis of the provisioning operation: the fixed
/// positional parameter list.
pub open spec fn usage_text() -> Seq<char> {
    "Usage: duck_rage(\n  db_type      VARCHAR  -- 'postgres' or 'mysql'\n  host         VARCHAR  -- hostname or IP\n  port         INTEGER  -- e.g. 5432\n  database     VARCHAR  -- database name\n  user         VARCHAR  -- login user\n  secrets_file VARCHAR  -- path to age-encrypted JSON file\n  secret_key   VARCHAR  -- JSON key whose value is the password\n  identity_file VARCHAR -- path to age identity file (rage-keygen output)\n)"@
}

/// The usage synopsis, to append to a bind-time failure so a caller
/// sees both the root cause and the calling convention.
pub fn usage() -> (r: &'static str)
    ensures
        r@ == usage_text(),
{
    "Usage: duck_rage(\n  db_type      VARCHAR  -- 'postgres' or 'mysql'\n  host         VARCHAR  -- hostname or IP\n  port         INTEGER  -- e.g. 5432\n  database     VARCHAR  -- database name\n  user         VARCHAR  -- login user\n  secrets_file VARCHAR  -- path to age-encrypted JSON file\n  secret_key   VARCHAR  -- JSON key whose value is the password\n  identity_file VARCHAR -- path to age identity file (rage-keygen output)\n)"
}

/// Renders a bind-time failure with the usage synopsis appended.
pub fn bind_error_message(e: &RageError) -> (r: String)
    ensures
        r@ == spec_message(*e) + "\n\n"@ + usage_text(),
{
    let mut s = e.message();
    s.append("\n\n");
    s.append(usage());
    proof {
        assert(s@ =~= spec_message(*e) + "\n\n"@ + usage_text());
    }
    s
}

} // verus!
