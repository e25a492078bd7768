use duck_rage::backend::{DbProvider, DbType};
use duck_rage::errors::RageError;
use duck_rage::text::escape_sql_string;

#[test]
fn parses_postgres_aliases_case_insensitively() {
    assert_eq!(DbType::from_str("postgres").unwrap(), DbType::Postgres);
    assert_eq!(DbType::from_str("postgresql").unwrap(), DbType::Postgres);
    assert_eq!(DbType::from_str("POSTGRES").unwrap(), DbType::Postgres);
    assert_eq!(DbType::from_str("PostgreSQL").unwrap(), DbType::Postgres);
}

#[test]
fn parses_mysql_alias_case_insensitively() {
    assert_eq!(DbType::from_str("mysql").unwrap(), DbType::Mysql);
    assert_eq!(DbType::from_str("MySQL").unwrap(), DbType::Mysql);
}

#[test]
fn rejects_unknown_backend_kinds() {
    for bad in ["oracle", "", "postgres ", "my sql", "pg"] {
        let err = DbType::from_str(bad).unwrap_err();
        assert!(matches!(err, RageError::UnsupportedBackend { .. }));
    }
}

#[test]
fn unknown_backend_message_names_value_and_supported_set() {
    let err = DbType::from_str("Oracle").unwrap_err();
    assert_eq!(
        err.message(),
        "Unknown db_type 'oracle'. Supported: postgres, mysql"
    );
}

#[test]
fn provider_selection_matches_backend() {
    assert_eq!(DbType::Postgres.provider(), DbProvider::Postgres);
    assert_eq!(DbType::Mysql.provider(), DbProvider::MySql);
    assert_eq!(DbProvider::Postgres.secret_type(), "postgres");
    assert_eq!(DbProvider::MySql.secret_type(), "mysql");
}

#[test]
fn escape_doubles_single_quotes() {
    assert_eq!(escape_sql_string("o'brien"), "o''brien");
    assert_eq!(escape_sql_string("no quotes"), "no quotes");
    assert_eq!(escape_sql_string("''"), "''''");
    assert_eq!(escape_sql_string(""), "");
}

#[test]
fn statement_builder_escapes_and_embeds_fields() {
    let sql = DbProvider::Postgres.create_secret_sql("h", 5432, "o'brien", "u", "p");
    assert_eq!(
        sql,
        "CREATE OR REPLACE SECRET duck_rage_o''brien ( TYPE postgres, \
         HOST 'h', PORT 5432, DATABASE 'o''brien', USER 'u', PASSWORD 'p' )"
    );
}

#[test]
fn statement_builder_mysql_tag_and_negative_port() {
    let sql = DbProvider::MySql.create_secret_sql("db.host", -1, "shop", "root", "pw'x");
    assert_eq!(
        sql,
        "CREATE OR REPLACE SECRET duck_rage_shop ( TYPE mysql, \
         HOST 'db.host', PORT -1, DATABASE 'shop', USER 'root', PASSWORD 'pw''x' )"
    );
}
