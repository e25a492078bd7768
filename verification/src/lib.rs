//! Provisioning of database connection credentials from an
//! age-encrypted secrets document.
//!
//! The library validates the positional parameters of a provisioning
//! call, decrypts an encrypted container with a private-key identity,
//! extracts one named field from the decrypted JSON document, builds a
//! backend-specific `CREATE OR REPLACE SECRET` statement, and drives a
//! call-once iteration protocol that executes that statement exactly
//! once per invocation.

pub mod backend;
pub mod errors;
pub mod orchestrate;
pub mod payload;
pub mod secrets;
pub mod text;
