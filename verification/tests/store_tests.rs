use solve::builder::{Expression, Predicate};
use solve::models::{EventKind, Instant};
use solve::objects::Task;
use solve::statement::Select;
use solve::store::{
    check_delete_affected, check_event_kind, check_update_affected, event_insert_query,
    event_row, id_guard, lifecycle_step, object_delete_query, object_find_query,
    object_insert_query, object_update_query, strip_column, BaseEvent, Context, ObjectPhase,
};
use solve::value::Value;

fn sample_row() -> Vec<(String, Value)> {
    vec![
        ("id".to_string(), Value::BigInt(0)),
        ("a".to_string(), Value::BigInt(7)),
        ("b".to_string(), Value::Text("x".to_string())),
    ]
}

#[test]
fn insert_strips_primary_key() {
    let q = object_insert_query(
        "solve_file",
        sample_row(),
        vec!["id".to_string(), "a".to_string(), "b".to_string()],
    );
    assert_eq!(
        q.query(),
        "INSERT INTO \"solve_file\" (\"a\", \"b\") VALUES ($1, $2) \
         RETURNING \"id\", \"a\", \"b\""
    );
    assert_eq!(
        q.values(),
        &vec![Value::BigInt(7), Value::Text("x".to_string())]
    );
}

#[test]
fn update_by_primary_key() {
    let guard = id_guard(3, None);
    let q = object_update_query("solve_file", sample_row(), guard, vec!["id".to_string()]);
    assert_eq!(
        q.query(),
        "UPDATE \"solve_file\" SET \"a\" = $1, \"b\" = $2 WHERE \"id\" = $3 RETURNING \"id\""
    );
    assert_eq!(
        q.values(),
        &vec![Value::BigInt(7), Value::Text("x".to_string()), Value::BigInt(3)]
    );
}

#[test]
fn update_with_fence() {
    let fence = solve::builder::column("status").equal(Expression::Value(Value::BigInt(0)));
    let guard = id_guard(3, Some(fence));
    let q = object_update_query("solve_file", sample_row(), guard, vec![]);
    assert_eq!(
        q.query(),
        "UPDATE \"solve_file\" SET \"a\" = $1, \"b\" = $2 WHERE \"id\" = $3 AND \"status\" = $4"
    );
    assert_eq!(
        q.values(),
        &vec![
            Value::BigInt(7),
            Value::Text("x".to_string()),
            Value::BigInt(3),
            Value::BigInt(0),
        ]
    );
}

#[test]
fn delete_by_primary_key() {
    let q = object_delete_query("solve_file", id_guard(3, None));
    assert_eq!(q.query(), "DELETE FROM \"solve_file\" WHERE \"id\" = $1");
    assert_eq!(q.values(), &vec![Value::BigInt(3)]);
}

#[test]
fn find_orders_by_primary_key() {
    // A caller-supplied ordering is overridden: listing is always
    // deterministic on the primary key.
    let select = Select::new()
        .with_where(Predicate::Bool(true))
        .with_order_by(vec!["b".to_string()])
        .with_limit(2);
    let q = object_find_query("solve_file", vec!["id".to_string(), "a".to_string()], select);
    assert_eq!(
        q.query(),
        "SELECT \"id\", \"a\" FROM \"solve_file\" WHERE true ORDER BY \"id\" LIMIT 2"
    );
    assert!(q.values().is_empty());
}

#[test]
fn column_stripping() {
    let stripped = strip_column(sample_row(), "id");
    let names: Vec<&str> = stripped.iter().map(|p| p.0.as_str()).collect();
    assert_eq!(names, vec!["a", "b"]);
    let untouched = strip_column(sample_row(), "missing");
    assert_eq!(untouched.len(), 3);
}

#[test]
fn event_rows() {
    let now = Instant { secs: 12 };
    let ev = BaseEvent::create(
        Task {
            id: 1,
            kind: solve::models::TaskKind::JudgeSolution,
            config: solve::models::JSON { text: "{}".to_string() },
            status: solve::models::TaskStatus::Queued,
            state: solve::models::JSON { text: "null".to_string() },
            expire_time: None,
        },
        now,
        Some(44),
    );
    assert_eq!(ev.kind, EventKind::Create);
    assert_eq!(ev.time, now);
    assert_eq!(ev.account_id, Some(44));
    let row = event_row(ev.object.into_row(), 0, ev.time, ev.account_id, ev.kind);
    let names: Vec<&str> = row.iter().map(|p| p.0.as_str()).collect();
    assert_eq!(
        names,
        vec![
            "id",
            "kind",
            "config",
            "status",
            "state",
            "expire_time",
            "event_id",
            "event_time",
            "event_account_id",
            "event_kind",
        ]
    );
    assert_eq!(row[7].1, Value::BigInt(12));
    assert_eq!(row[8].1, Value::BigInt(44));
    assert_eq!(row[9].1, Value::BigInt(1));
}

#[test]
fn contexts() {
    let ctx = Context::new();
    assert_eq!(ctx.account_id, None);
    assert!(!ctx.in_transaction);
    let ctx = ctx.with_account_id(9);
    assert_eq!(ctx.account_id, Some(9));
    let ctx = ctx.with_transaction();
    assert!(ctx.in_transaction);
    assert_eq!(ctx.account_id, Some(9));
}

#[test]
fn affected_row_outcomes() {
    assert!(check_update_affected(1).is_ok());
    assert_eq!(
        check_update_affected(0).unwrap_err().kind(),
        solve::error::ErrorKind::Conflict
    );
    assert!(check_delete_affected(1).is_ok());
    assert_eq!(
        check_delete_affected(0).unwrap_err().kind(),
        solve::error::ErrorKind::NotFound
    );
    assert_eq!(
        check_delete_affected(2).unwrap_err().kind(),
        solve::error::ErrorKind::NotFound
    );
}

#[test]
fn lifecycle_shape() {
    // The accepted transitions spell `Create, Update*, Delete`.
    let p = ObjectPhase::Absent;
    let p = lifecycle_step(p, EventKind::Create).unwrap();
    assert_eq!(p, ObjectPhase::Live);
    let p = lifecycle_step(p, EventKind::Update).unwrap();
    let p = lifecycle_step(p, EventKind::Update).unwrap();
    let p = lifecycle_step(p, EventKind::Delete).unwrap();
    assert_eq!(p, ObjectPhase::Gone);

    // Nothing follows a deletion, nothing precedes a creation, and a
    // second creation is refused.
    assert!(lifecycle_step(ObjectPhase::Gone, EventKind::Update).is_none());
    assert!(lifecycle_step(ObjectPhase::Gone, EventKind::Delete).is_none());
    assert!(lifecycle_step(ObjectPhase::Absent, EventKind::Update).is_none());
    assert!(lifecycle_step(ObjectPhase::Absent, EventKind::Delete).is_none());
    assert!(lifecycle_step(ObjectPhase::Live, EventKind::Create).is_none());
    assert!(lifecycle_step(ObjectPhase::Absent, EventKind::Unknown(9)).is_none());
}

#[test]
fn event_insert_keeps_object_id() {
    let row = vec![
        ("id".to_string(), Value::BigInt(7)),
        ("a".to_string(), Value::BigInt(1)),
        ("event_id".to_string(), Value::BigInt(0)),
        ("event_time".to_string(), Value::BigInt(12)),
    ];
    let q = event_insert_query("solve_file_event", row, vec!["event_id".to_string()]);
    assert_eq!(
        q.query(),
        "INSERT INTO \"solve_file_event\" (\"id\", \"a\", \"event_time\") \
         VALUES ($1, $2, $3) RETURNING \"event_id\""
    );
    assert_eq!(
        q.values(),
        &vec![Value::BigInt(7), Value::BigInt(1), Value::BigInt(12)]
    );
}

#[test]
fn unknown_event_kinds_refused() {
    assert!(check_event_kind(&EventKind::Create).is_ok());
    assert!(check_event_kind(&EventKind::Update).is_ok());
    assert!(check_event_kind(&EventKind::Delete).is_ok());
    assert!(check_event_kind(&EventKind::Unknown(9)).is_err());
}
