use duck_rage::errors::RageError;
use duck_rage::orchestrate::{
    confirmation_row, first_poll_output, InvocationCursor, RageBindData,
};

fn sample_bind_data() -> RageBindData {
    RageBindData {
        host: "db.example.com".to_string(),
        port: 5432,
        database: "orders".to_string(),
        user: "svc".to_string(),
        create_secret_sql: "CREATE OR REPLACE SECRET duck_rage_orders ( ... )".to_string(),
    }
}

/// A spy standing in for the connection: counts statement executions.
struct SpyExecutor {
    executions: usize,
}

impl SpyExecutor {
    fn execute(&mut self, _sql: &str) -> Result<(), String> {
        self.executions += 1;
        Ok(())
    }
}

#[test]
fn first_poll_emits_one_row_and_executes_once() {
    let bind = sample_bind_data();
    let mut spy = SpyExecutor { executions: 0 };
    let mut cursor = InvocationCursor::new();

    let mut rows: Vec<String> = Vec::new();
    for _ in 0..5 {
        if cursor.claim_first() {
            let exec_result = spy.execute(&bind.create_secret_sql);
            rows.push(first_poll_output(&bind, exec_result).unwrap());
        }
    }

    assert_eq!(spy.executions, 1);
    assert_eq!(rows.len(), 1);
    assert_eq!(
        rows[0],
        "Secret 'duck_rage_orders' created for svc@db.example.com:5432/orders"
    );
}

#[test]
fn subsequent_polls_emit_zero_rows() {
    let mut cursor = InvocationCursor::new();
    assert!(cursor.claim_first());
    assert!(!cursor.claim_first());
    assert!(!cursor.claim_first());
}

#[test]
fn execution_failure_aborts_with_statement_execution_error() {
    let bind = sample_bind_data();
    let err = first_poll_output(&bind, Err("connection refused".to_string())).unwrap_err();
    assert!(matches!(err, RageError::StatementExecution { .. }));
    assert_eq!(
        err.message(),
        "Failed to run registration statement: connection refused"
    );
}

#[test]
fn confirmation_row_names_target_but_never_password() {
    let row = confirmation_row(&sample_bind_data());
    assert_eq!(
        row,
        "Secret 'duck_rage_orders' created for svc@db.example.com:5432/orders"
    );
}
