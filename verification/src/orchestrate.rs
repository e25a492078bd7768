//! The provisioning orchestrator: typed parameter validation, the
//! bind-time pipeline that compiles the registration statement, the
//! call-once iteration cursor, and the confirmation row.

use vstd::prelude::*;
use vstd::string::StringExecFns;

use crate::backend::{db_type_of, provider_of, spec_create_secret_sql, DbType};
use crate::errors::RageError;
use crate::payload::{extract, parsed_doc, trimmed};
use crate::secrets::{age_plaintext, decrypt_secret, identities_load, identity_parses};
use crate::text::{dec_int, i32_to_string, lower_seq, parse_i32, spec_parse_i32};

verus! {

/// The bind-time state of one provisioning call: the connection
/// parameters and the compiled registration statement. The statement
/// text is the sole carrier of the recovered secret; the password is
/// never retained as a separate field.
#[derive(Debug)]
pub struct RageBindData {
    pub host: String,
    pub port: i32,
    pub database: String,
    pub user: String,
    pub create_secret_sql: String,
}

/// Parses the typed positional parameters: the backend kind and the
/// port. An unknown backend kind is rejected with the offending
/// (lowercased) value; a non-integer port with the offending literal.
pub fn validate_request(db_type: &str, port: &str) -> (r: Result<(DbType, i32), RageError>)
    ensures
        db_type_of(db_type@) is None ==> (r matches Err(RageError::UnsupportedBackend { given })
            && given@ == lower_seq(db_type@)),
        db_type_of(db_type@) is Some && spec_parse_i32(port@) is None ==> (r matches Err(
            RageError::InvalidPort { given },
        ) && given@ == port@),
        db_type_of(db_type@) is Some && spec_parse_i32(port@) is Some ==> r == Ok::<
            (DbType, i32),
            RageError,
        >((db_type_of(db_type@)->0, spec_parse_i32(port@)->0)),
{
    let kind = match DbType::from_str(db_type) {
        Ok(k) => k,
        Err(e) => {
            return Err(e);
        },
    };
    match parse_i32(port) {
        Some(p) => Ok((kind, p)),
        None => Err(RageError::InvalidPort { given: String::from_str(port) }),
    }
}

/// Compiles one provisioning request: validates the backend kind and
/// the port, decrypts the container with the identity text, extracts
/// the named field from the decrypted document, and embeds it into the
/// backend's registration statement. The recovered password leaves this
/// function only inside the statement text.
pub fn bind_request(
    db_type: &str,
    host: &str,
    port: &str,
    database: &str,
    user: &str,
    ciphertext: &Vec<u8>,
    secrets_path: &str,
    secret_key: &str,
    identity_text: &str,
    identity_path: &str,
) -> (r: Result<RageBindData, RageError>)
    ensures
        db_type_of(db_type@) is None ==> (r matches Err(RageError::UnsupportedBackend { given })
            && given@ == lower_seq(db_type@)),
        db_type_of(db_type@) is Some && spec_parse_i32(port@) is None ==> (r matches Err(
            RageError::InvalidPort { given },
        ) && given@ == port@),
        db_type_of(db_type@) is Some && spec_parse_i32(port@) is Some && age_plaintext(
            ciphertext@,
            identity_text@,
        ) is None ==> (r matches Err(e) && match e {
            RageError::IdentityParse { path, .. } => path@ == identity_path@ && !identity_parses(
                identity_text@,
            ),
            RageError::IdentityLoad { path, .. } => path@ == identity_path@ && identity_parses(
                identity_text@,
            ) && !identities_load(identity_text@),
            RageError::Decryption { path, identity_path: ip, .. } => path@ == secrets_path@ && ip@
                == identity_path@ && identity_parses(identity_text@) && identities_load(
                identity_text@,
            ),
            _ => false,
        }),
        age_plaintext(ciphertext@, identity_text@) matches Some(plain) ==> (db_type_of(
            db_type@,
        ) is Some && spec_parse_i32(port@) is Some ==> {
            let docopt = parsed_doc(trimmed(plain));
            &&& docopt is None ==> (r matches Err(RageError::MalformedPayload { .. }))
            &&& docopt matches Some(doc) ==> {
                &&& !doc.contains_key(secret_key@) ==> (r matches Err(
                    RageError::KeyNotFound { key },
                ) && key@ == secret_key@)
                &&& (doc.contains_key(secret_key@) && doc[secret_key@] is None) ==> (r matches Err(
                    RageError::KeyType { key, .. },
                ) && key@ == secret_key@)
                &&& (doc.contains_key(secret_key@) && doc[secret_key@] is Some) ==> (r matches Ok(
                    bd,
                ) && {
                    let password = doc[secret_key@]->0;
                    &&& bd.host@ == host@
                    &&& bd.port == spec_parse_i32(port@)->0
                    &&& bd.database@ == database@
                    &&& bd.user@ == user@
                    &&& bd.create_secret_sql@ == spec_create_secret_sql(
                        provider_of(db_type_of(db_type@)->0),
                        host@,
                        spec_parse_i32(port@)->0 as int,
                        database@,
                        user@,
                        password,
                    )
                })
            }
        }),
{
    let (kind, port_num) = match validate_request(db_type, port) {
        Ok(v) => v,
        Err(e) => {
            return Err(e);
        },
    };
    let provider = kind.provider();
    let plain = match decrypt_secret(ciphertext, secrets_path, identity_text, identity_path) {
        Ok(p) => p,
        Err(e) => {
            return Err(e);
        },
    };
    let password = match extract(plain.as_str(), secret_key) {
        Ok(v) => v,
        Err(e) => {
            return Err(e);
        },
    };
    let create_secret_sql = provider.create_secret_sql(
        host,
        port_num,
        database,
        user,
        password.as_str(),
    );
    Ok(
        RageBindData {
            host: String::from_str(host),
            port: port_num,
            database: String::from_str(database),
            user: String::from_str(user),
            create_secret_sql,
        },
    )
}

/// The per-call cursor of the pull-based iteration protocol: whether
/// the single result row has already been produced for this call.
/// Created at call start, flipped exactly once, discarded at call end.
pub struct InvocationCursor {
    pub emitted: bool,
}

/// One poll transition: the cursor after the poll, and whether this
/// poll is the first — the one that must execute the statement and
/// emit the confirmation row.
pub open spec fn spec_poll(emitted: bool) -> (bool, bool) {
    (true, !emitted)
}

/// The cursor state after a number of polls of one call.
pub open spec fn cursor_after(initial: bool, polls: nat) -> bool
    decreases polls,
{
    if polls == 0 {
        initial
    } else {
        spec_poll(cursor_after(initial, (polls - 1) as nat)).0
    }
}

/// How many of the first `polls` polls of one call claim the statement
/// execution.
pub open spec fn executions_after(initial: bool, polls: nat) -> nat
    decreases polls,
{
    if polls == 0 {
        0
    } else {
        executions_after(initial, (polls - 1) as nat) + (if spec_poll(
            cursor_after(initial, (polls - 1) as nat),
        ).1 {
            1nat
        } else {
            0nat
        })
    }
}

/// Idempotence of polling: however many times a freshly bound call is
/// polled, exactly one poll — the first — claims the statement
/// execution and the row emission; every later poll claims nothing.
pub proof fn lemma_poll_idempotent(polls: nat)
    requires
        polls >= 1,
    ensures
        executions_after(false, polls) == 1,
        !spec_poll(cursor_after(false, polls)).1,
    decreases polls,
{
    reveal_with_fuel(cursor_after, 2);
    reveal_with_fuel(executions_after, 2);
    if polls > 1 {
        lemma_poll_idempotent((polls - 1) as nat);
    }
}

impl InvocationCursor {
    /// A cursor for a freshly bound call: nothing emitted yet.
    pub fn new() -> (r: InvocationCursor)
        ensures
            !r.emitted,
    {
        InvocationCursor { emitted: false }
    }

    /// Claims one poll as a single read-and-set step: reports whether
    /// this poll is the first of the call, and marks the row emitted
    /// either way, so no two polls can both claim the execution.
    pub fn claim_first(&mut self) -> (first: bool)
        ensures
            (final(self).emitted, first) == spec_poll(old(self).emitted),
    {
        let was = self.emitted;
        self.emitted = true;
        !was
    }
}

/// The confirmation row of a successful call: names the generated
/// credential identifier and the target of the registration, never the
/// password.
pub open spec fn spec_confirmation(bd: RageBindData) -> Seq<char> {
    "Secret 'duck_rage_"@ + bd.database@ + "' created for "@ + bd.user@ + seq!['@'] + bd.host@
        + ":"@ + dec_int(bd.port as int) + "/"@ + bd.database@
}

/// Builds the single confirmation row of a successful call.
pub fn confirmation_row(bd: &RageBindData) -> (r: String)
    ensures
        r@ == spec_confirmation(*bd),
{
    let mut s = String::from_str("Secret 'duck_rage_");
    s.append(bd.database.as_str());
    s.append("' created for ");
    s.append(bd.user.as_str());
    s.append("@");
    s.append(bd.host.as_str());
    s.append(":");
    s.append(i32_to_string(bd.port).as_str());
    s.append("/");
    s.append(bd.database.as_str());
    proof {
        assert("@"@ =~= seq!['@']) by {
            reveal_strlit("@");
        }
        assert(s@ =~= spec_confirmation(*bd));
    }
    s
}

/// What the first poll of a call yields once the statement execution
/// has been attempted: the confirmation row when the execution
/// succeeded, and the execution failure — aborting the call with no
/// row — when it did not.
pub fn first_poll_output(bd: &RageBindData, exec_result: Result<(), String>) -> (r: Result<
    String,
    RageError,
>)
    ensures
        exec_result is Ok ==> (r matches Ok(row) && row@ == spec_confirmation(*bd)),
        exec_result matches Err(d) ==> (r matches Err(RageError::StatementExecution { detail })
            && detail@ == d@),
{
    match exec_result {
        Ok(()) => Ok(confirmation_row(bd)),
        Err(detail) => Err(RageError::StatementExecution { detail }),
    }
}

/// Declares duckdb's `Connection` — the shared handle the registration
/// statement executes against — as an opaque outside type.
#[verifier::external_type_specification]
#[verifier::external_body]
pub struct ExConnection(duckdb::Connection);

/// Relies on duckdb's `Connection::execute_batch`: runs the statement
/// text against the given connection. Whether it succeeds depends on
/// the connection and on the backend's state, so nothing is promised of
/// the outcome.
#[verifier::external_body]
pub fn execute_sql_on_current_db(conn: &duckdb::Connection, sql: &str) -> (r: Result<(), String>) {
    conn.execute_batch(sql).map_err(|e| e.to_string())
}

} // verus!
