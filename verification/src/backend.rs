//! The closed set of supported database backends: parsing the
//! backend-kind parameter, the per-backend credential-type tag, and the
//! credential-registration statement builder.

use vstd::prelude::*;
use vstd::string::StringExecFns;

use crate::errors::RageError;
use crate::text::{dec_int, escape_sql_string, escaped, i32_to_string, lower_seq, to_ascii_lower};

verus! {

/// A supported database backend, parsed from the backend-kind
/// parameter. Immutable once parsed.
#[derive(Clone, Copy, PartialEq, Eq, Structural, Debug)]
pub enum DbType {
    Postgres,
    Mysql,
}

/// The backend-specific behaviour: one variant per supported backend,
/// stateless and safe to share across calls.
#[derive(Clone, Copy, PartialEq, Eq, Structural, Debug)]
pub enum DbProvider {
    Postgres,
    MySql,
}

/// The backend selected by a backend-kind string: `postgres` and
/// `postgresql` (case-insensitively) select Postgres, `mysql` selects
/// MySQL, and every other string selects none.
pub open spec fn db_type_of(s: Seq<char>) -> Option<DbType> {
    if lower_seq(s) == "postgres"@ || lower_seq(s) == "postgresql"@ {
        Some(DbType::Postgres)
    } else if lower_seq(s) == "mysql"@ {
        Some(DbType::Mysql)
    } else {
        None
    }
}

/// The provider serving a backend.
pub open spec fn provider_of(t: DbType) -> DbProvider {
    match t {
        DbType::Postgres => DbProvider::Postgres,
        DbType::Mysql => DbProvider::MySql,
    }
}

/// The credential-type tag a provider embeds in the registration
/// statement.
pub open spec fn secret_type_tag(p: DbProvider) -> Seq<char> {
    match p {
        DbProvider::Postgres => "postgres"@,
        DbProvider::MySql => "mysql"@,
    }
}

/// The complete credential-registration statement for one backend: a
/// create-or-replace statement named `duck_rage_<database>`, embedding
/// the connection fields as literals, every string field escaped by
/// doubling its single quotes and the port embedded as a raw integer.
pub open spec fn spec_create_secret_sql(
    p: DbProvider,
    host: Seq<char>,
    port: int,
    database: Seq<char>,
    user: Seq<char>,
    password: Seq<char>,
) -> Seq<char> {
    "CREATE OR REPLACE SECRET duck_rage_"@ + escaped(database) + " ( TYPE "@ + secret_type_tag(p)
        + ", HOST '"@ + escaped(host) + "', PORT "@ + dec_int(port) + ", DATABASE '"@ + escaped(
        database,
    ) + "', USER '"@ + escaped(user) + "', PASSWORD '"@ + escaped(password) + "' )"@
}

/// Backend selection law: every string that names a Postgres alias
/// (case-insensitively) selects the provider whose credential-type tag
/// is `postgres`; the MySQL alias selects the provider tagged `mysql`;
/// and every other string selects no backend at all.
pub proof fn lemma_alias_selects_matching_provider(s: Seq<char>)
    ensures
        (lower_seq(s) == "postgres"@ || lower_seq(s) == "postgresql"@) ==> db_type_of(s) == Some(
            DbType::Postgres,
        ) && secret_type_tag(provider_of(db_type_of(s)->0)) == "postgres"@,
        lower_seq(s) == "mysql"@ ==> db_type_of(s) == Some(DbType::Mysql) && secret_type_tag(
            provider_of(db_type_of(s)->0),
        ) == "mysql"@,
        (lower_seq(s) != "postgres"@ && lower_seq(s) != "postgresql"@ && lower_seq(s) != "mysql"@)
            ==> db_type_of(s) is None,
{
    reveal_strlit("postgres");
    reveal_strlit("postgresql");
    reveal_strlit("mysql");
    assert("postgres"@.len() == 8);
    assert("postgresql"@.len() == 10);
    assert("mysql"@.len() == 5);
}

impl DbType {
    /// Parses the backend-kind parameter, case-insensitively, into the
    /// backend it names; every unrecognized value is rejected with the
    /// offending (lowercased) value.
    pub fn from_str(s: &str) -> (r: Result<DbType, RageError>)
        ensures
            db_type_of(s@) is Some ==> r == Ok::<DbType, RageError>(db_type_of(s@)->0),
            db_type_of(s@) is None ==> (r matches Err(RageError::UnsupportedBackend { given })
                && given@ == lower_seq(s@)),
    {
        let lowered = to_ascii_lower(s);
        if lowered == String::from_str("postgres") || lowered == String::from_str("postgresql") {
            Ok(DbType::Postgres)
        } else if lowered == String::from_str("mysql") {
            Ok(DbType::Mysql)
        } else {
            Err(RageError::UnsupportedBackend { given: lowered })
        }
    }

    /// The provider serving this backend.
    pub fn provider(self) -> (r: DbProvider)
        ensures
            r == provider_of(self),
    {
        match self {
            DbType::Postgres => DbProvider::Postgres,
            DbType::Mysql => DbProvider::MySql,
        }
    }
}

impl DbProvider {
    /// The credential-type keyword of this backend (e.g. `postgres`,
    /// `mysql`).
    pub fn secret_type(&self) -> (r: &'static str)
        ensures
            r@ == secret_type_tag(*self),
    {
        match self {
            DbProvider::Postgres => "postgres",
            DbProvider::MySql => "mysql",
        }
    }

    /// Builds the full create-or-replace credential-registration
    /// statement, named `duck_rage_<database>`.
    pub fn create_secret_sql(
        &self,
        host: &str,
        port: i32,
        database: &str,
        user: &str,
        password: &str,
    ) -> (r: String)
        ensures
            r@ == spec_create_secret_sql(*self, host@, port as int, database@, user@, password@),
    {
        let mut s = String::from_str("CREATE OR REPLACE SECRET duck_rage_");
        s.append(escape_sql_string(database).as_str());
        s.append(" ( TYPE ");
        s.append(self.secret_type());
        s.append(", HOST '");
        s.append(escape_sql_string(host).as_str());
        s.append("', PORT ");
        s.append(i32_to_string(port).as_str());
        s.append(", DATABASE '");
        s.append(escape_sql_string(database).as_str());
        s.append("', USER '");
        s.append(escape_sql_string(user).as_str());
        s.append("', PASSWORD '");
        s.append(escape_sql_string(password).as_str());
        s.append("' )");
        proof {
            assert(s@ =~= spec_create_secret_sql(
                *self,
                host@,
                port as int,
                database@,
                user@,
                password@,
            ));
        }
        s
    }
}

} // verus!
