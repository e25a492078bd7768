//! The decryption engine: unlocks an encrypted container with the
//! identities (private keys) found in an identity file's text.

use vstd::prelude::*;
use vstd::string::StringExecFns;

use crate::errors::RageError;

verus! {

/// What decrypting a container with the identities of an identity text
/// yields: the decrypted document text when the identity text parses,
/// its identities load, one of them unlocks the container and the
/// plaintext is valid text; nothing otherwise.
pub uninterp spec fn age_plaintext(ciphertext: Seq<u8>, identity: Seq<char>) -> Option<Seq<char>>;

/// Whether a text parses as identity material: what age's
/// `IdentityFile::from_buffer` accepts, a function of the text alone.
pub uninterp spec fn identity_parses(identity: Seq<char>) -> bool;

/// Whether the parsed entries of an identity text load as usable
/// identities: what age's `IdentityFile::into_identities` accepts, a
/// function of the text alone.
pub uninterp spec fn identities_load(identity: Seq<char>) -> bool;

enum DecryptFailure {
    IdentityParse(String),
    IdentityLoad(String),
    Unlock(String),
}

/// Relies on age's `IdentityFile` parsing and `Decryptor`: decrypting a
/// container against the identities of an identity text is a function
/// of the ciphertext bytes and the identity text alone; a failure
/// reports the stage that failed and never any plaintext or key
/// material.
#[verifier::external_body]
fn age_unseal(ciphertext: &Vec<u8>, identity_text: &str) -> (r: Result<String, DecryptFailure>)
    ensures
        r is Ok <==> age_plaintext(ciphertext@, identity_text@) is Some,
        r matches Ok(p) ==> Some(p@) == age_plaintext(ciphertext@, identity_text@),
        r matches Err(f) ==> match f {
            DecryptFailure::IdentityParse(_) => !identity_parses(identity_text@),
            DecryptFailure::IdentityLoad(_) => identity_parses(identity_text@)
                && !identities_load(identity_text@),
            DecryptFailure::Unlock(_) => identity_parses(identity_text@) && identities_load(
                identity_text@,
            ),
        },
{
    let idf = age::IdentityFile::from_buffer(identity_text.as_bytes())
        .map_err(|e| DecryptFailure::IdentityParse(e.to_string()))?;
    let ids = idf.into_identities().map_err(|e| DecryptFailure::IdentityLoad(e.to_string()))?;
    let dec = age::Decryptor::new_buffered(ciphertext.as_slice())
        .map_err(|e| DecryptFailure::Unlock(e.to_string()))?;
    let mut reader = dec.decrypt(ids.iter().map(|i| i.as_ref() as &dyn age::Identity))
        .map_err(|e| DecryptFailure::Unlock(e.to_string()))?;
    let mut text = String::new();
    std::io::Read::read_to_string(&mut reader, &mut text)
        .map_err(|e| DecryptFailure::Unlock(e.to_string()))?;
    Ok(text)
}

/// Decrypts the encrypted container with the identities found in the
/// identity text and returns the decrypted document text. A failure
/// carries the offending paths, never plaintext or key material:
/// unparsable identity text names the identity file, identities that
/// parse but do not load name it too, and a container that loaded
/// identities do not unlock — a wrong key, or a malformed container —
/// names both files as a decryption failure.
pub fn decrypt_secret(
    ciphertext: &Vec<u8>,
    secrets_path: &str,
    identity_text: &str,
    identity_path: &str,
) -> (r: Result<String, RageError>)
    ensures
        r is Ok <==> age_plaintext(ciphertext@, identity_text@) is Some,
        r matches Ok(p) ==> Some(p@) == age_plaintext(ciphertext@, identity_text@),
        r matches Err(e) ==> match e {
            RageError::IdentityParse { path, .. } => path@ == identity_path@ && !identity_parses(
                identity_text@,
            ),
            RageError::IdentityLoad { path, .. } => path@ == identity_path@ && identity_parses(
                identity_text@,
            ) && !identities_load(identity_text@),
            RageError::Decryption { path, identity_path: ip, .. } => path@ == secrets_path@ && ip@
                == identity_path@ && identity_parses(identity_text@) && identities_load(
                identity_text@,
            ),
            _ => false,
        },
{
    match age_unseal(ciphertext, identity_text) {
        Ok(p) => Ok(p),
        Err(DecryptFailure::IdentityParse(detail)) => Err(
            RageError::IdentityParse { path: String::from_str(identity_path), detail },
        ),
        Err(DecryptFailure::IdentityLoad(detail)) => Err(
            RageError::IdentityLoad { path: String::from_str(identity_path), detail },
        ),
        Err(DecryptFailure::Unlock(detail)) => Err(
            RageError::Decryption {
                path: String::from_str(secrets_path),
                identity_path: String::from_str(identity_path),
                detail,
            },
        ),
    }
}

} // verus!
