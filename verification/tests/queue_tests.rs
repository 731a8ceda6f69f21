use solve::models::{Instant, TaskKind, TaskStatus, JSON};
use solve::objects::Task;
use solve::query::QueryBuilder;
use solve::store::Context;
use solve::tasks::{
    check_take_task_context, claim_update, db_update_where, fence_predicate, is_expired,
    pick_candidate, pinger_action, take_task_select_query, task_create_event_query,
    task_create_query, task_delete_queries, task_update_queries, task_update_query, PingerAction,
    TaskHandle, TaskManager,
};
use solve::value::Value;
use solve::worker::{backoff_delay, handler_for, terminal_status, worker_step, Handler, WorkerAction};

fn queued_task(id: i64) -> Task {
    Task {
        id,
        kind: TaskKind::JudgeSolution,
        config: JSON { text: "{}".to_string() },
        status: TaskStatus::Queued,
        state: JSON { text: "null".to_string() },
        expire_time: None,
    }
}

#[test]
fn lease_expiry() {
    let now = Instant { secs: 1000 };
    assert!(is_expired(&None, now));
    assert!(is_expired(&Some(Instant { secs: 999 }), now));
    assert!(!is_expired(&Some(Instant { secs: 1000 }), now));
    assert!(!is_expired(&Some(Instant { secs: 1001 }), now));
}

#[test]
fn claim_sets_lease() {
    let now = Instant { secs: 1000 };
    let claimed = claim_update(queued_task(5), now, 30);
    assert_eq!(claimed.id, 5);
    assert_eq!(claimed.status, TaskStatus::Running);
    assert_eq!(claimed.expire_time, Some(Instant { secs: 1030 }));
    assert_eq!(claimed.kind, TaskKind::JudgeSolution);
}

#[test]
fn claim_race_single_winner() {
    // Two claimers observed the same queued row; the fenced update lets
    // exactly one through.
    let now = Instant { secs: 1000 };
    let row = queued_task(5);
    let observed_kind = row.kind;
    let observed_status = row.status;
    let observed_expire = row.expire_time;

    let claim_one = claim_update(queued_task(5), now, 30);
    let (row, affected) =
        db_update_where(row, claim_one, observed_kind, observed_status, observed_expire);
    assert_eq!(affected, 1);
    assert_eq!(row.status, TaskStatus::Running);

    let claim_two = claim_update(queued_task(5), Instant { secs: 1001 }, 30);
    let (row, affected) =
        db_update_where(row, claim_two, observed_kind, observed_status, observed_expire);
    assert_eq!(affected, 0);
    assert_eq!(row.expire_time, Some(Instant { secs: 1030 }));
}

#[test]
fn abandoned_lease_reclaim() {
    // A running task whose lease has passed is claimed on the observed
    // tuple, and the claim again changes that tuple.
    let now = Instant { secs: 1000 };
    let mut row = queued_task(9);
    row.status = TaskStatus::Running;
    row.expire_time = Some(Instant { secs: 999 });
    assert!(is_expired(&row.expire_time, now));

    let observed = (row.kind, row.status, row.expire_time);
    let claim = claim_update(row.clone(), now, 30);
    let (row, affected) = db_update_where(row, claim, observed.0, observed.1, observed.2);
    assert_eq!(affected, 1);
    assert_eq!(row.expire_time, Some(Instant { secs: 1030 }));

    let mut late = queued_task(9);
    late.status = TaskStatus::Running;
    late.expire_time = Some(Instant { secs: 999 });
    let late_claim = claim_update(late, Instant { secs: 1002 }, 30);
    let (_, affected) = db_update_where(row, late_claim, observed.0, observed.1, observed.2);
    assert_eq!(affected, 0);
}

#[test]
fn candidate_skips_unknown_kinds() {
    let mut unknown = queued_task(1);
    unknown.kind = TaskKind::Unknown(9);
    let picked = pick_candidate(vec![unknown, queued_task(2), queued_task(3)]);
    assert_eq!(picked.unwrap().id, 2);

    let mut only_unknown = queued_task(1);
    only_unknown.kind = TaskKind::Unknown(9);
    assert!(pick_candidate(vec![only_unknown]).is_none());
    assert!(pick_candidate(vec![]).is_none());
}

#[test]
fn fence_sql_shape() {
    let fence = fence_predicate(
        TaskKind::JudgeSolution,
        TaskStatus::Queued,
        Some(Instant { secs: 42 }),
    );
    let mut builder = QueryBuilder::new();
    fence.push_into(&mut builder);
    let q = builder.build();
    assert_eq!(
        q.query(),
        "\"kind\" = $1 AND \"status\" = $2 AND \"expire_time\" = $3"
    );
    assert_eq!(
        q.values(),
        &vec![Value::BigInt(1), Value::BigInt(0), Value::BigInt(42)]
    );

    let fence = fence_predicate(TaskKind::JudgeSolution, TaskStatus::Queued, None);
    let mut builder = QueryBuilder::new();
    fence.push_into(&mut builder);
    let q = builder.build();
    assert_eq!(
        q.query(),
        "\"kind\" = $1 AND \"status\" = $2 AND \"expire_time\" IS NULL"
    );
    assert_eq!(q.values(), &vec![Value::BigInt(1), Value::BigInt(0)]);
}

#[test]
fn take_task_queries() {
    // The claimable filter covers queued rows and abandoned running ones.
    let q = take_task_select_query(Instant { secs: 1000 });
    assert_eq!(
        q.query(),
        "SELECT \"id\", \"kind\", \"config\", \"status\", \"state\", \"expire_time\" \
         FROM \"solve_task\" WHERE \"status\" = $1 OR (\"status\" = $2 AND \
         \"expire_time\" <= $3) ORDER BY \"id\" LIMIT 5"
    );
    assert_eq!(
        q.values(),
        &vec![Value::BigInt(0), Value::BigInt(1), Value::BigInt(1000)]
    );

    let now = Instant { secs: 1000 };
    let claimed = claim_update(queued_task(5), now, 30);
    let q = task_update_query(claimed, TaskKind::JudgeSolution, TaskStatus::Queued, None);
    assert_eq!(
        q.query(),
        "UPDATE \"solve_task\" SET \"kind\" = $1, \"config\" = $2, \"status\" = $3, \
         \"state\" = $4, \"expire_time\" = $5 WHERE \"id\" = $6 AND \"kind\" = $7 AND \
         \"status\" = $8 AND \"expire_time\" IS NULL RETURNING \"id\", \"kind\", \"config\", \
         \"status\", \"state\", \"expire_time\""
    );
    assert_eq!(
        q.values(),
        &vec![
            Value::BigInt(1),
            Value::Text("{}".to_string()),
            Value::BigInt(1),
            Value::Text("null".to_string()),
            Value::BigInt(1030),
            Value::BigInt(5),
            Value::BigInt(1),
            Value::BigInt(0),
        ]
    );
}

#[test]
fn pinger_decisions() {
    let now = Instant { secs: 1000 };
    assert_eq!(pinger_action(&Some(Instant { secs: 999 }), now), PingerAction::Cancel);
    assert_eq!(pinger_action(&None, now), PingerAction::Cancel);
    assert_eq!(pinger_action(&Some(Instant { secs: 1010 }), now), PingerAction::Ping);
    // Exactly the threshold remaining does not yet renew.
    assert_eq!(pinger_action(&Some(Instant { secs: 1015 }), now), PingerAction::Wait);
    assert_eq!(pinger_action(&Some(Instant { secs: 1016 }), now), PingerAction::Wait);
}

#[test]
fn lease_guard() {
    let now = Instant { secs: 1000 };
    assert!(solve::tasks::check_lease(&Some(Instant { secs: 1001 }), now).is_ok());
    let err = solve::tasks::check_lease(&Some(Instant { secs: 999 }), now).unwrap_err();
    assert_eq!(err.kind(), solve::error::ErrorKind::Conflict);
}

#[test]
fn manager_lease() {
    let manager = TaskManager::new();
    assert_eq!(manager.lease_secs(), 30);
}

#[test]
fn worker_decisions() {
    assert_eq!(worker_step(true, &Ok(Some(queued_task(1)))), WorkerAction::Exit);
    assert_eq!(worker_step(false, &Ok(Some(queued_task(1)))), WorkerAction::Run);
    assert_eq!(worker_step(false, &Ok(None)), WorkerAction::Backoff);
    assert_eq!(
        worker_step(false, &Err(solve::error::Error::Transient("x".to_string()))),
        WorkerAction::Backoff
    );

    assert_eq!(backoff_delay(0), 800);
    assert_eq!(backoff_delay(399), 1199);
    assert_eq!(backoff_delay(400), 800);
    assert_eq!(backoff_delay(65535), 800 + (65535 % 400));

    assert_eq!(handler_for(&TaskKind::JudgeSolution).unwrap(), Handler::JudgeSolution);
    assert_eq!(
        handler_for(&TaskKind::UpdateProblemPackage).unwrap(),
        Handler::UpdateProblemPackage
    );
    assert!(handler_for(&TaskKind::Unknown(7)).is_err());

    assert_eq!(terminal_status(true), TaskStatus::Succeeded);
    assert_eq!(terminal_status(false), TaskStatus::Failed);
}

#[test]
fn external_update_breaks_lease() {
    // Another actor bumps the row behind the worker's back; the next
    // lease-guarded write matches zero rows, and the handler bails out.
    let now = Instant { secs: 1000 };
    let row = queued_task(5);
    let observed = (row.kind, row.status, row.expire_time);
    let claimed = claim_update(row, now, 30);
    // An external bump of the expiry changes the fence tuple.
    let bumped = solve::tasks::ping_update(claimed.clone(), Instant { secs: 1005 }, 60);
    let (bumped_row, affected) = db_update_where(
        bumped.clone(),
        bumped,
        observed.0,
        observed.1,
        observed.2,
    );
    assert_eq!(affected, 0);
    // The worker's own renewal, guarded on its stale mirror, also fails.
    let renewal = solve::tasks::ping_update(claimed.clone(), Instant { secs: 1006 }, 30);
    let (_, affected) = db_update_where(
        bumped_row,
        renewal,
        claimed.kind,
        claimed.status,
        claimed.expire_time,
    );
    assert_eq!(affected, 0);
}

#[test]
fn task_creation_query() {
    let q = task_create_query(queued_task(0)).unwrap();
    assert_eq!(
        q.query(),
        "INSERT INTO \"solve_task\" (\"kind\", \"config\", \"status\", \"state\", \
         \"expire_time\") VALUES ($1, $2, $3, $4, $5) RETURNING \"id\", \"kind\", \
         \"config\", \"status\", \"state\", \"expire_time\""
    );
    assert_eq!(
        q.values(),
        &vec![
            Value::BigInt(1),
            Value::Text("{}".to_string()),
            Value::BigInt(0),
            Value::Text("null".to_string()),
            Value::Null,
        ]
    );

    let mut invalid = queued_task(0);
    invalid.kind = TaskKind::Unknown(9);
    match task_create_query(invalid) {
        Ok(_) => panic!("an invalid task must be refused"),
        Err(err) => assert_eq!(err.kind(), solve::error::ErrorKind::NotFound),
    }
}

#[test]
fn task_handle_mirrors() {
    let now = Instant { secs: 1000 };
    let claimed = claim_update(queued_task(5), now, 30);
    let mut handle = TaskHandle::new(claimed);
    assert_eq!(handle.get_id(), 5);
    assert_eq!(handle.get_kind(), TaskKind::JudgeSolution);
    assert_eq!(handle.get_status(), TaskStatus::Running);
    assert_eq!(handle.lease_expiry(), Some(Instant { secs: 1030 }));
    let fence = handle.fence();
    assert_eq!(fence.1, TaskStatus::Running);

    let renewed = solve::tasks::ping_update(handle.snapshot(), Instant { secs: 1010 }, 30);
    handle.commit(renewed);
    assert_eq!(handle.lease_expiry(), Some(Instant { secs: 1040 }));
    assert_eq!(handle.get_id(), 5);
}

#[test]
fn claims_run_outside_transactions() {
    assert!(check_take_task_context(&Context::new()).is_ok());
    let err = check_take_task_context(&Context::new().with_transaction()).unwrap_err();
    assert_eq!(err.kind(), solve::error::ErrorKind::Conflict);
}

#[test]
fn task_mutations_pair_with_events() {
    let now = Instant { secs: 50 };
    // A created task's event carries the persisted row.
    let mut persisted = queued_task(0);
    persisted.id = 7;
    let ev = task_create_event_query(persisted, now, Some(4));
    assert_eq!(
        ev.query(),
        "INSERT INTO \"solve_task_event\" (\"id\", \"kind\", \"config\", \"status\", \
         \"state\", \"expire_time\", \"event_time\", \"event_account_id\", \
         \"event_kind\") VALUES ($1, $2, $3, $4, $5, $6, $7, $8, $9) RETURNING \"id\", \
         \"kind\", \"config\", \"status\", \"state\", \"expire_time\", \"event_id\", \
         \"event_time\", \"event_account_id\", \"event_kind\""
    );
    assert_eq!(ev.values()[0], Value::BigInt(7));
    assert_eq!(ev.values()[6], Value::BigInt(50));
    assert_eq!(ev.values()[7], Value::BigInt(4));
    assert_eq!(ev.values()[8], Value::BigInt(1));

    // A guarded update and its Update event come as one unit.
    let claimed = claim_update(queued_task(7), now, 30);
    let (update, event) = task_update_queries(
        claimed,
        TaskKind::JudgeSolution,
        TaskStatus::Queued,
        None,
        now,
        None,
    );
    assert!(update.query().starts_with("UPDATE \"solve_task\" SET"));
    assert!(event.query().starts_with("INSERT INTO \"solve_task_event\""));
    assert_eq!(event.values()[3], Value::BigInt(1));
    assert_eq!(event.values()[8], Value::BigInt(3));

    // A deletion and its Delete event, whose object is the zero task
    // carrying only the id.
    let (removal, event) = task_delete_queries(9, now, None);
    assert_eq!(removal.query(), "DELETE FROM \"solve_task\" WHERE \"id\" = $1");
    assert_eq!(removal.values(), &vec![Value::BigInt(9)]);
    assert_eq!(event.values()[0], Value::BigInt(9));
    assert_eq!(event.values()[1], Value::BigInt(1));
    assert_eq!(event.values()[2], Value::Text("null".to_string()));
    assert_eq!(event.values()[3], Value::BigInt(0));
    assert_eq!(event.values()[5], Value::Null);
    assert_eq!(event.values()[8], Value::BigInt(2));
}
