use solve::models::{EventKind, FileStatus, Instant, TaskKind, TaskStatus, JSON};
use solve::objects::{File, Task};
use solve::value::{Value, ValueKind};

#[test]
fn test_event_kinds() {
    assert_eq!(EventKind::from_value(&Value::BigInt(1)).unwrap(), EventKind::Create);
    assert_eq!(EventKind::Create.into_value(), Value::BigInt(1));

    assert_eq!(EventKind::from_value(&Value::BigInt(2)).unwrap(), EventKind::Delete);
    assert_eq!(EventKind::Delete.into_value(), Value::BigInt(2));

    assert_eq!(EventKind::from_value(&Value::BigInt(3)).unwrap(), EventKind::Update);
    assert_eq!(EventKind::Update.into_value(), Value::BigInt(3));

    assert_eq!(EventKind::from_value(&Value::BigInt(4)).unwrap(), EventKind::Unknown(4));
    assert_eq!(EventKind::Unknown(4).into_value(), Value::BigInt(4));
}

#[test]
fn test_file_statuses() {
    assert_eq!(FileStatus::from_value(&Value::BigInt(0)).unwrap(), FileStatus::Pending);
    assert_eq!(FileStatus::Pending.into_value(), Value::BigInt(0));

    assert_eq!(FileStatus::from_value(&Value::BigInt(1)).unwrap(), FileStatus::Available);
    assert_eq!(FileStatus::Available.into_value(), Value::BigInt(1));

    assert_eq!(FileStatus::from_value(&Value::BigInt(2)).unwrap(), FileStatus::Unknown(2));
    assert_eq!(FileStatus::Unknown(2).into_value(), Value::BigInt(2));
}

#[test]
fn test_task_kinds() {
    assert_eq!(TaskKind::from_value(&Value::BigInt(1)).unwrap(), TaskKind::JudgeSolution);
    assert_eq!(TaskKind::JudgeSolution.into_value(), Value::BigInt(1));

    assert_eq!(
        TaskKind::from_value(&Value::BigInt(2)).unwrap(),
        TaskKind::UpdateProblemPackage
    );
    assert_eq!(TaskKind::UpdateProblemPackage.into_value(), Value::BigInt(2));

    assert_eq!(TaskKind::from_value(&Value::BigInt(3)).unwrap(), TaskKind::Unknown(3));
    assert_eq!(TaskKind::Unknown(3).into_value(), Value::BigInt(3));
}

#[test]
fn test_task_statuses() {
    assert_eq!(TaskStatus::from_value(&Value::BigInt(0)).unwrap(), TaskStatus::Queued);
    assert_eq!(TaskStatus::Queued.into_value(), Value::BigInt(0));

    assert_eq!(TaskStatus::from_value(&Value::BigInt(1)).unwrap(), TaskStatus::Running);
    assert_eq!(TaskStatus::Running.into_value(), Value::BigInt(1));

    assert_eq!(TaskStatus::from_value(&Value::BigInt(2)).unwrap(), TaskStatus::Succeeded);
    assert_eq!(TaskStatus::Succeeded.into_value(), Value::BigInt(2));

    assert_eq!(TaskStatus::from_value(&Value::BigInt(3)).unwrap(), TaskStatus::Failed);
    assert_eq!(TaskStatus::Failed.into_value(), Value::BigInt(3));

    assert_eq!(TaskStatus::from_value(&Value::BigInt(4)).unwrap(), TaskStatus::Unknown(4));
    assert_eq!(TaskStatus::Unknown(4).into_value(), Value::BigInt(4));
}

#[test]
fn value_kind_discriminants() {
    assert_eq!(Value::Null.kind(), ValueKind::Null);
    assert_eq!(Value::Bool(true).kind(), ValueKind::Bool);
    assert_eq!(Value::BigInt(7).kind(), ValueKind::BigInt);
    assert_eq!(Value::Double(0x3ff0000000000000).kind(), ValueKind::Double);
    assert_eq!(Value::Text("x".to_string()).kind(), ValueKind::Text);
    assert_eq!(Value::Blob(vec![1, 2]).kind(), ValueKind::Blob);
    assert!(Value::Null.is_null());
    assert!(!Value::Bool(false).is_null());
}

#[test]
fn value_round_trip_non_null() {
    let b = Value::Bool(true);
    assert_eq!(Value::Bool(b.to_bool().unwrap()), b);
    let n = Value::BigInt(-5);
    assert_eq!(Value::BigInt(n.to_i64().unwrap()), n);
    let d = Value::Double(0x4008000000000000);
    assert_eq!(Value::Double(d.to_double_bits().unwrap()), d);
    let t = Value::Text("hello".to_string());
    assert_eq!(Value::Text(t.to_text().unwrap()), t);
    let l = Value::Blob(vec![0, 255, 16]);
    assert_eq!(Value::Blob(l.to_blob().unwrap()), l);
}

#[test]
fn value_parse_errors() {
    assert!(Value::Null.to_bool().is_err());
    assert!(Value::Bool(true).to_i64().is_err());
    assert!(Value::BigInt(1).to_text().is_err());
    assert!(Value::Text("x".to_string()).to_blob().is_err());
    assert!(Value::Blob(vec![]).to_double_bits().is_err());
    assert_eq!(Value::Null.to_opt_i64().unwrap(), None);
    assert_eq!(Value::BigInt(9).to_opt_i64().unwrap(), Some(9));
    assert_eq!(Value::Null.to_opt_text().unwrap(), None);
}

#[test]
fn out_of_width_codes_refused() {
    // The stored width of an event kind is a signed byte.
    assert!(EventKind::from_value(&Value::BigInt(300)).is_err());
    assert!(TaskKind::from_value(&Value::BigInt(-300)).is_err());
    assert!(FileStatus::from_value(&Value::Text("x".to_string())).is_err());
    // A task status occupies the full column width: everything decodes.
    assert_eq!(
        TaskStatus::from_value(&Value::BigInt(1000)).unwrap(),
        TaskStatus::Unknown(1000)
    );
}

#[test]
fn row_lookup() {
    let columns = solve::row::ColumnIndex::new(vec![
        "a".to_string(),
        "b".to_string(),
    ]);
    assert_eq!(columns.len(), 2);
    assert_eq!(columns.get("a"), Some(0));
    assert_eq!(columns.get("b"), Some(1));
    assert_eq!(columns.get("c"), None);
    let row = solve::row::Row::new(vec![Value::BigInt(1), Value::Text("x".to_string())], columns);
    assert_eq!(row.len(), 2);
    assert_eq!(row.get_at(0), Some(&Value::BigInt(1)));
    assert_eq!(row.get_at(2), None);
    assert_eq!(row.get_named("b"), Some(&Value::Text("x".to_string())));
    assert!(row.get_parsed("missing").is_err());
}

#[test]
fn duplicate_column_shadows() {
    let columns = solve::row::ColumnIndex::new(vec![
        "a".to_string(),
        "a".to_string(),
    ]);
    assert_eq!(columns.len(), 1);
    assert_eq!(columns.get("a"), Some(1));
}

#[test]
fn task_row_round_trip() {
    let task = Task {
        id: 7,
        kind: TaskKind::JudgeSolution,
        config: JSON { text: "{}".to_string() },
        status: TaskStatus::Queued,
        state: JSON { text: "null".to_string() },
        expire_time: Some(Instant { secs: 100 }),
    };
    let row = task.into_row();
    let names: Vec<&str> = row.iter().map(|p| p.0.as_str()).collect();
    assert_eq!(names, vec!["id", "kind", "config", "status", "state", "expire_time"]);
    let index = solve::row::ColumnIndex::new(row.iter().map(|p| p.0.clone()).collect());
    let values: Vec<Value> = row.iter().map(|p| p.1.clone()).collect();
    let fetched = solve::row::Row::new(values, index);
    let decoded = Task::from_row(&fetched).unwrap();
    assert_eq!(decoded.id, 7);
    assert_eq!(decoded.kind, TaskKind::JudgeSolution);
    assert_eq!(decoded.status, TaskStatus::Queued);
    assert_eq!(decoded.config.text, "{}");
    assert_eq!(decoded.state.text, "null");
    assert_eq!(decoded.expire_time, Some(Instant { secs: 100 }));
}

#[test]
fn file_row_round_trip() {
    let file = File {
        id: 3,
        status: FileStatus::Available,
        expire_time: None,
        path: "ab/cdef".to_string(),
        meta: JSON { text: "null".to_string() },
    };
    let row = file.into_row();
    let index = solve::row::ColumnIndex::new(row.iter().map(|p| p.0.clone()).collect());
    let values: Vec<Value> = row.iter().map(|p| p.1.clone()).collect();
    let fetched = solve::row::Row::new(values, index);
    let decoded = File::from_row(&fetched).unwrap();
    assert_eq!(decoded.id, 3);
    assert_eq!(decoded.status, FileStatus::Available);
    assert_eq!(decoded.expire_time, None);
    assert_eq!(decoded.path, "ab/cdef");
}
