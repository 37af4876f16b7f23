use sqlbatch::executor::{
    DbAction, DbEvent, EngineError, Executor, TransactionStep,
};
use sqlbatch::binder::BindError;
use sqlbatch::values::{BoundParam, DynamicValue, NumberValue};

fn step(sql: &str, params: Vec<DynamicValue>) -> TransactionStep {
    TransactionStep {
        sql: sql.to_string(),
        params,
    }
}

#[test]
fn fresh_identifier_connects_first() {
    let (_, action) = Executor::start("sqlite:a.db".to_string(), vec![], false);
    assert_eq!(
        action,
        DbAction::Connect {
            identifier: "sqlite:a.db".to_string()
        }
    );
}

#[test]
fn cached_identifier_skips_connect() {
    let (_, action) = Executor::start("sqlite:a.db".to_string(), vec![], true);
    assert_eq!(action, DbAction::Begin);
}

#[test]
fn full_successful_run() {
    let steps = vec![
        step("CREATE TABLE t(x INT)", vec![]),
        step(
            "INSERT INTO t VALUES(?)",
            vec![DynamicValue::Number(NumberValue::Integer(5))],
        ),
    ];
    let (mut ex, action) = Executor::start("sqlite::memory:".to_string(), steps, false);
    assert_eq!(
        action,
        DbAction::Connect {
            identifier: "sqlite::memory:".to_string()
        }
    );
    assert_eq!(ex.on_event(DbEvent::Connected), DbAction::Begin);
    assert_eq!(
        ex.on_event(DbEvent::Begun),
        DbAction::Execute {
            sql: "CREATE TABLE t(x INT)".to_string(),
            params: vec![],
        }
    );
    assert_eq!(
        ex.on_event(DbEvent::StepExecuted),
        DbAction::Execute {
            sql: "INSERT INTO t VALUES(?)".to_string(),
            params: vec![BoundParam::Integer(5)],
        }
    );
    assert_eq!(ex.on_event(DbEvent::StepExecuted), DbAction::Commit);
    match ex.on_event(DbEvent::Committed) {
        DbAction::Finish { outcome: Ok(result) } => {
            assert!(result.success);
            assert_eq!(result.error, None);
        }
        other => panic!("expected a successful finish, got {:?}", other),
    }
}

#[test]
fn empty_batch_commits_immediately() {
    let (mut ex, _) = Executor::start("sqlite::memory:".to_string(), vec![], true);
    assert_eq!(ex.on_event(DbEvent::Begun), DbAction::Commit);
}

#[test]
fn unsupported_parameter_stops_before_any_statement() {
    let steps = vec![step(
        "INSERT INTO t VALUES(?)",
        vec![DynamicValue::Other],
    )];
    let (mut ex, _) = Executor::start("sqlite::memory:".to_string(), steps, true);
    // The batch dies at binding: no Execute and no Commit is ever asked for.
    match ex.on_event(DbEvent::Begun) {
        DbAction::Finish { outcome: Err(e) } => {
            assert_eq!(
                e,
                EngineError::Bind {
                    error: BindError::UnsupportedType
                }
            );
            assert_eq!(e.render(), "Unsupported parameter type");
        }
        other => panic!("expected a failed finish, got {:?}", other),
    }
}

#[test]
fn invalid_number_stops_before_any_statement() {
    let steps = vec![step(
        "INSERT INTO t VALUES(?)",
        vec![DynamicValue::Number(NumberValue::Unrepresentable)],
    )];
    let (mut ex, _) = Executor::start("sqlite::memory:".to_string(), steps, true);
    match ex.on_event(DbEvent::Begun) {
        DbAction::Finish { outcome: Err(e) } => {
            assert_eq!(e.render(), "Invalid number type");
        }
        other => panic!("expected a failed finish, got {:?}", other),
    }
}

#[test]
fn connect_failure_message() {
    let (mut ex, _) = Executor::start("sqlite:nowhere".to_string(), vec![], false);
    match ex.on_event(DbEvent::ConnectFailed {
        message: "no such host".to_string(),
    }) {
        DbAction::Finish { outcome: Err(e) } => {
            assert_eq!(e.render(), "Failed to connect to database: no such host");
        }
        other => panic!("expected a failed finish, got {:?}", other),
    }
}

#[test]
fn begin_failure_message() {
    let (mut ex, _) = Executor::start("sqlite::memory:".to_string(), vec![], true);
    match ex.on_event(DbEvent::BeginFailed {
        message: "pool closed".to_string(),
    }) {
        DbAction::Finish { outcome: Err(e) } => {
            assert_eq!(e.render(), "Failed to begin transaction: pool closed");
        }
        other => panic!("expected a failed finish, got {:?}", other),
    }
}

#[test]
fn step_failure_embeds_driver_message_and_sql() {
    let steps = vec![step("INSERT INTO t VALUES(?)", vec![DynamicValue::Null])];
    let (mut ex, _) = Executor::start("sqlite::memory:".to_string(), steps, true);
    let _ = ex.on_event(DbEvent::Begun);
    match ex.on_event(DbEvent::StepFailed {
        message: "datatype mismatch".to_string(),
    }) {
        DbAction::Finish { outcome: Err(e) } => {
            assert_eq!(
                e.render(),
                "SQL Error: datatype mismatch | Query: INSERT INTO t VALUES(?)"
            );
        }
        other => panic!("expected a failed finish, got {:?}", other),
    }
}

#[test]
fn commit_failure_is_reported_distinctly() {
    let (mut ex, _) = Executor::start("sqlite::memory:".to_string(), vec![], true);
    let _ = ex.on_event(DbEvent::Begun);
    match ex.on_event(DbEvent::CommitFailed {
        message: "disk full".to_string(),
    }) {
        DbAction::Finish { outcome: Err(e) } => {
            assert_eq!(e.render(), "Failed to commit transaction: disk full");
        }
        other => panic!("expected a failed finish, got {:?}", other),
    }
}

#[test]
fn failed_step_never_reaches_commit() {
    // A three-step batch whose middle step fails: the engine asks for no
    // commit anywhere in the run.
    let steps = vec![
        step("CREATE TABLE t(x INT)", vec![]),
        step("INSERT INTO t VALUES(1)", vec![]),
        step("INSERT INTO t VALUES(2)", vec![]),
    ];
    let (mut ex, first) = Executor::start("sqlite::memory:".to_string(), steps, true);
    let mut actions = vec![first];
    actions.push(ex.on_event(DbEvent::Begun));
    actions.push(ex.on_event(DbEvent::StepExecuted));
    actions.push(ex.on_event(DbEvent::StepFailed {
        message: "constraint failed".to_string(),
    }));
    for a in &actions {
        assert!(!matches!(a, DbAction::Commit), "commit issued: {:?}", a);
    }
    assert!(matches!(
        actions.last(),
        Some(DbAction::Finish { outcome: Err(_) })
    ));
}

#[test]
fn same_inputs_same_outcome() {
    // No hidden per-call state: two runs from the same inputs and the same
    // backend reports produce the same actions throughout.
    let mk = || {
        vec![step(
            "INSERT INTO t VALUES(?)",
            vec![DynamicValue::Boolean(true)],
        )]
    };
    let (mut ex1, a1) = Executor::start("sqlite:a.db".to_string(), mk(), true);
    let (mut ex2, a2) = Executor::start("sqlite:a.db".to_string(), mk(), true);
    assert_eq!(a1, a2);
    assert_eq!(ex1.on_event(DbEvent::Begun), ex2.on_event(DbEvent::Begun));
    assert_eq!(
        ex1.on_event(DbEvent::StepExecuted),
        ex2.on_event(DbEvent::StepExecuted)
    );
    assert_eq!(
        ex1.on_event(DbEvent::Committed),
        ex2.on_event(DbEvent::Committed)
    );
}
