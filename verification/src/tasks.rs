//! The lease-based task queue: claiming, renewal, and the optimistic
//! fence that makes every transition race-safe.  The database executes
//! the queries built here; the decisions and the fence arithmetic are
//! verified.

use vstd::prelude::*;

use crate::builder::{column, pred_ok, pred_sql, pred_vals, Expression, Predicate};
use crate::error::{Error, ErrorKind};
use crate::models::{event_kind_code, task_kind_code, task_status_code, EventKind, Instant, TaskKind, TaskStatus};
use crate::objects::{
    is_zero_task_row, task_columns_spec, task_is_valid, task_like, task_row_values, Task,
};
use crate::query::{placeholder, quoted, RawQuery};
use crate::statement::{names_sql, row_names, row_values, set_sql, values_sql, Select};
use crate::store::{
    event_columns_suffix, event_insert_query, event_row, event_values_suffix, id_guard,
    object_delete_query, object_find_query, object_update_query, row_without,
};
use crate::text::dec_u64;
use crate::value::Value;

verus! {

/// How long one lease lasts, in seconds.
pub const TASK_LEASE_SECS: i64 = 30;

/// The pinger renews once less than this many seconds remain.
pub const PING_THRESHOLD_SECS: i64 = 15;

/// How many queued candidates one claim attempt fetches.
pub const TAKE_TASK_LIMIT: usize = 5;

/// A lease that has no expiry time at all counts as expired, so a row
/// damaged that way can be reclaimed.
pub open spec fn is_expired_spec(expire: Option<Instant>, now: Instant) -> bool {
    match expire {
        Some(v) => v.secs < now.secs,
        None => true,
    }
}

/// Whether a lease has expired at `now`.
pub fn is_expired(expire: &Option<Instant>, now: Instant) -> (r: bool)
    ensures
        r == is_expired_spec(*expire, now),
{
    match expire {
        Some(v) => v.secs < now.secs,
        None => true,
    }
}

/// The claimed form of a task: running, leased until `now + lease`.
pub open spec fn claim_spec(t: Task, now: Instant, lease: i64) -> Task {
    Task {
        id: t.id,
        kind: t.kind,
        config: t.config,
        status: TaskStatus::Running,
        state: t.state,
        expire_time: Some(Instant { secs: (now.secs + lease) as i64 }),
    }
}

/// Builds the claimed form of a task.
pub fn claim_update(task: Task, now: Instant, lease: i64) -> (r: Task)
    requires
        now.secs + lease <= i64::MAX,
        now.secs + lease >= i64::MIN,
    ensures
        r == claim_spec(task, now, lease),
{
    let Task { id, kind, config, status: _, state, expire_time: _ } = task;
    Task {
        id,
        kind,
        config,
        status: TaskStatus::Running,
        state,
        expire_time: Some(now.plus_secs(lease)),
    }
}

/// The fence tuple observed by a claimer or a lease holder.
pub open spec fn fence_matches_spec(
    t: Task,
    kind: TaskKind,
    status: TaskStatus,
    expire: Option<Instant>,
) -> bool {
    t.kind == kind && t.status == status && t.expire_time == expire
}

/// What the database does to a row under a fenced update: the row changes
/// and one row is reported affected exactly when the fence tuple still
/// matches; otherwise nothing changes and zero rows are reported.
pub fn db_update_where(
    row: Task,
    new_task: Task,
    kind: TaskKind,
    status: TaskStatus,
    expire: Option<Instant>,
) -> (r: (Task, u64))
    requires
        new_task.id == row.id,
    ensures
        fence_matches_spec(row, kind, status, expire) ==> (r.0 == new_task && r.1 == 1),
        !fence_matches_spec(row, kind, status, expire) ==> (r.0 == row && r.1 == 0),
{
    let matches_fence = {
        let k: bool = match (row.kind, kind) {
            (TaskKind::JudgeSolution, TaskKind::JudgeSolution) => true,
            (TaskKind::UpdateProblemPackage, TaskKind::UpdateProblemPackage) => true,
            (TaskKind::Unknown(a), TaskKind::Unknown(b)) => a == b,
            _ => false,
        };
        let s: bool = match (row.status, status) {
            (TaskStatus::Queued, TaskStatus::Queued) => true,
            (TaskStatus::Running, TaskStatus::Running) => true,
            (TaskStatus::Succeeded, TaskStatus::Succeeded) => true,
            (TaskStatus::Failed, TaskStatus::Failed) => true,
            (TaskStatus::Unknown(a), TaskStatus::Unknown(b)) => a == b,
            _ => false,
        };
        let e: bool = match (row.expire_time, expire) {
            (None, None) => true,
            (Some(a), Some(b)) => a.secs == b.secs,
            _ => false,
        };
        k && s && e
    };
    if matches_fence {
        (new_task, 1)
    } else {
        (row, 0)
    }
}

/// A lease counted abandoned at `now`: its expiry has passed (or it has
/// none at all), so the row may be reclaimed.
pub open spec fn lease_stale_spec(expire: Option<Instant>, now: Instant) -> bool {
    match expire {
        Some(v) => v.secs <= now.secs,
        None => true,
    }
}

/// Of claimers racing on the same claimable task, exactly one observes
/// its fenced update affecting a row: the first successful claim changes
/// the fence tuple, so every later update guarded on the old tuple
/// matches zero rows.  This covers both a queued task and the reclaim of
/// an abandoned running one, whose old expiry lies strictly before the
/// fresh lease's.
pub proof fn lemma_single_claimer(t: Task, now: Instant, lease: i64)
    requires
        lease > 0,
        now.secs + lease <= i64::MAX,
        t.status == TaskStatus::Queued || lease_stale_spec(t.expire_time, now),
    ensures
        !fence_matches_spec(claim_spec(t, now, lease), t.kind, t.status, t.expire_time),
{
    let c = claim_spec(t, now, lease);
    if t.status == TaskStatus::Queued {
        assert(c.status != t.status);
    } else {
        match t.expire_time {
            Some(e) => {
                assert(e.secs <= now.secs);
                assert(c.expire_time != t.expire_time);
            },
            None => {
                assert(c.expire_time is Some);
            },
        }
    }
}

/// The index of the first fetched candidate whose kind has a handler.
pub open spec fn first_claimable(s: Seq<Task>) -> Option<int>
    decreases s.len(),
{
    if s.len() == 0 {
        None
    } else if !(s[0].kind is Unknown) {
        Some(0)
    } else {
        match first_claimable(s.drop_first()) {
            Some(i) => Some(i + 1),
            None => None,
        }
    }
}

proof fn lemma_first_claimable_skip(s: Seq<Task>, i: int)
    requires
        0 <= i <= s.len(),
        forall|j: int| 0 <= j < i ==> (#[trigger] s[j]).kind is Unknown,
    ensures
        first_claimable(s) == (match first_claimable(s.skip(i)) {
            Some(x) => Some(x + i),
            None => None,
        }),
    decreases i,
{
    if i > 0 {
        assert(s[0].kind is Unknown);
        assert(s.drop_first() =~= s.skip(1));
        lemma_first_claimable_skip(s.skip(1), i - 1);
        assert(s.skip(1).skip(i - 1) =~= s.skip(i));
        assert forall|j: int| 0 <= j < i - 1 implies (#[trigger] s.skip(1)[j]).kind
            is Unknown by {
            assert(s.skip(1)[j] == s[j + 1]);
        }
    } else {
        assert(s.skip(0) =~= s);
    }
}

/// Picks the first fetched candidate whose kind decodes to a handler;
/// candidates written by a newer schema are skipped.
pub fn pick_candidate(tasks: Vec<Task>) -> (r: Option<Task>)
    ensures
        match r {
            Some(t) => (match first_claimable(tasks@) {
                Some(i) => tasks@[i] == t,
                None => false,
            }),
            None => first_claimable(tasks@) is None,
        },
{
    let ghost orig = tasks@;
    let mut queue = tasks;
    let n = queue.len();
    let mut i: usize = 0;
    while i < n
        invariant
            i <= n,
            n == orig.len(),
            queue@ == orig.skip(i as int),
            orig == tasks@,
            forall|j: int| 0 <= j < i ==> (#[trigger] orig[j]).kind is Unknown,
        decreases n - i,
    {
        let t = queue.remove(0);
        proof {
            assert(t == orig[i as int]);
            assert(queue@ =~= orig.skip(i as int + 1));
        }
        if t.kind.is_supported() {
            proof {
                lemma_first_claimable_skip(orig, i as int);
                assert(orig.skip(i as int)[0] == orig[i as int]);
                assert(first_claimable(orig.skip(i as int)) == Some(0int));
                assert(first_claimable(orig) == Some(i as int));
                assert(match first_claimable(orig) {
                    Some(x) => orig[x] == t,
                    None => false,
                });
            }
            return Some(t);
        }
        i += 1;
    }
    proof {
        lemma_first_claimable_skip(orig, n as int);
        assert(orig.skip(n as int).len() == 0);
    }
    None
}

/// The SQL text a task fence emits: kind, status and expiry equalities,
/// with a NULL expiry tested by `IS NULL`.
pub open spec fn fence_sql(
    kind: TaskKind,
    status: TaskStatus,
    expire: Option<Instant>,
    k: int,
) -> Seq<char> {
    quoted("kind"@) + " = "@ + placeholder(k + 1) + " AND "@ + quoted("status"@) + " = "@
        + placeholder(k + 2) + " AND "@ + (match expire {
        Some(_) => quoted("expire_time"@) + " = "@ + placeholder(k + 3),
        None => quoted("expire_time"@) + " IS NULL"@,
    })
}

/// The values a task fence binds, in placeholder order.
pub open spec fn fence_vals(kind: TaskKind, status: TaskStatus, expire: Option<Instant>) -> Seq<
    Value,
> {
    seq![
        Value::BigInt((task_kind_code(kind)) as i64),
        Value::BigInt((task_status_code(status)) as i64),
    ] + (match expire {
        Some(i) => seq![Value::BigInt(i.secs)],
        None => Seq::<Value>::empty(),
    })
}

/// Builds the optimistic fence of a claim or a lease renewal: the kind,
/// status and expiry the caller observed.
pub fn fence_predicate(kind: TaskKind, status: TaskStatus, expire: Option<Instant>) -> (r:
    Predicate)
    ensures
        r is And,
        pred_ok(r),
        pred_vals(r) == fence_vals(kind, status, expire),
        forall|k: int| #[trigger] pred_sql(r, k) == fence_sql(kind, status, expire, k),
{
    proof {
        reveal_strlit("kind");
        reveal_strlit("status");
        reveal_strlit("expire_time");
    }
    let p_kind = column("kind").equal(Expression::Value(kind.into_value()));
    let p_status = column("status").equal(Expression::Value(status.into_value()));
    let p_expire = column("expire_time").equal(
        Expression::Value(crate::models::Instant::opt_into_value(expire)),
    );
    let r = p_kind.and(p_status).and(p_expire);
    proof {
        reveal_with_fuel(crate::builder::pred_vals, 4);
        reveal_with_fuel(crate::builder::pred_ok, 4);
        assert(pred_vals(r) =~= fence_vals(kind, status, expire));
        assert(pred_ok(r));
        assert forall|k: int| #[trigger] pred_sql(r, k) == fence_sql(kind, status, expire, k) by {
            reveal_with_fuel(crate::builder::pred_sql, 4);
            reveal_with_fuel(crate::builder::side_sql, 4);
            reveal_with_fuel(crate::builder::pred_vals, 4);
            assert(pred_sql(r, k) =~= fence_sql(kind, status, expire, k));
        }
    }
    r
}

/// Hands claimed tasks to workers: each claim runs with the standard
/// lease, and the mirror of the claimed row lives with the worker.
pub struct TaskManager {
    lease_secs: i64,
}

impl TaskManager {
    /// The lease every claim takes, in seconds.
    pub closed spec fn lease(&self) -> int {
        self.lease_secs as int
    }

    pub fn new() -> (r: TaskManager)
        ensures
            r.lease() == TASK_LEASE_SECS,
    {
        TaskManager { lease_secs: TASK_LEASE_SECS }
    }

    /// The lease duration claims use.
    pub fn lease_secs(&self) -> (r: i64)
        ensures
            r == self.lease(),
    {
        self.lease_secs
    }
}


/// A claim must run its own transaction: taking a task inside a
/// caller's transaction is refused.
pub fn check_take_task_context(ctx: &crate::store::Context) -> (r: Result<(), Error>)
    ensures
        match r {
            Ok(_) => !ctx.in_transaction,
            Err(e) => ctx.in_transaction && e.spec_kind() == ErrorKind::Conflict,
        },
{
    if ctx.in_transaction {
        Err(Error::Conflict("cannot take task in transaction".to_owned()))
    } else {
        Ok(())
    }
}

/// The text of the claimable filter: queued rows, and running rows whose
/// lease has already run out at the given moment.
pub open spec fn claimable_sql(k: int) -> Seq<char> {
    quoted("status"@) + " = "@ + placeholder(k + 1) + " OR "@ + seq!['('] + quoted("status"@)
        + " = "@ + placeholder(k + 2) + " AND "@ + quoted("expire_time"@) + " <= "@ + placeholder(
        k + 3,
    ) + seq![')']
}

/// The query one claim attempt runs: the claimable candidates — queued,
/// or running with a lease already expired at `now` (an abandoned lease
/// is reclaimed) — in id order, up to the fetch limit.
pub fn take_task_select_query(now: Instant) -> (r: RawQuery)
    ensures
        r.text() == "SELECT "@ + names_sql(task_columns_spec()) + " FROM "@ + quoted(
            "solve_task"@,
        ) + " WHERE "@ + claimable_sql(0) + " ORDER BY "@ + names_sql(seq!["id"@]) + " LIMIT "@
            + dec_u64(5),
        r.vals() == seq![Value::BigInt(0), Value::BigInt(1), Value::BigInt(now.secs)],
{
    proof {
        reveal_strlit("solve_task");
        reveal_strlit("status");
        reveal_strlit("expire_time");
    }
    let queued = column("status").equal(
        Expression::Value(TaskStatus::Queued.into_value()),
    );
    let running = column("status").equal(
        Expression::Value(TaskStatus::Running.into_value()),
    );
    let stale = running.and(
        column("expire_time").less_equal(Expression::Value(Value::BigInt(now.secs))),
    );
    let claimable = queued.or(stale);
    proof {
        reveal_with_fuel(crate::builder::pred_ok, 4);
        reveal_with_fuel(crate::builder::pred_vals, 4);
        reveal_with_fuel(crate::builder::pred_sql, 4);
        reveal_with_fuel(crate::builder::side_sql, 4);
        assert(pred_ok(claimable));
        assert(pred_vals(claimable) =~= seq![
            Value::BigInt(0),
            Value::BigInt(1),
            Value::BigInt(now.secs),
        ]);
        assert(pred_sql(claimable, 0) =~= claimable_sql(0));
    }
    let select = Select::new().with_where(claimable).with_limit(TAKE_TASK_LIMIT);
    proof {
        crate::objects::lemma_task_columns_valid();
    }
    let r = object_find_query("solve_task", Task::columns(), select);
    proof {
        assert(r.vals() =~= seq![Value::BigInt(0), Value::BigInt(1), Value::BigInt(now.secs)]);
        assert(r.text() =~= "SELECT "@ + names_sql(task_columns_spec()) + " FROM "@ + quoted(
            "solve_task"@,
        ) + " WHERE "@ + claimable_sql(0) + " ORDER BY "@ + names_sql(seq!["id"@]) + " LIMIT "@
            + dec_u64(5));
    }
    r
}

/// The insert a new task runs: the row without its primary key, which
/// the database assigns, returning the stored columns.  A task whose
/// kind or status is unknown is refused before anything is written.
pub fn task_create_query(task: Task) -> (r: Result<RawQuery, Error>)
    ensures
        match r {
            Ok(q) => task_is_valid(task) && q.text() == "INSERT INTO "@ + quoted("solve_task"@)
                + " ("@ + names_sql(task_columns_spec().skip(1)) + ") VALUES ("@ + values_sql(
                0,
                5,
            ) + ")"@ + " RETURNING "@ + names_sql(task_columns_spec()) && q.vals()
                == task_row_values(task).skip(1),
            Err(e) => !task_is_valid(task) && e.spec_kind() == ErrorKind::NotFound,
        },
{
    proof {
        reveal_strlit("solve_task");
    }
    if !task.is_valid() {
        return Err(Error::NotFound("invalid task".to_owned()));
    }
    let ghost t0 = task;
    let row = task.into_row();
    proof {
        crate::objects::lemma_task_columns_valid();
        assert(row@.len() == 6) by {
            assert(row_names(row@).len() == task_columns_spec().len());
        }
        lemma_task_row_without_id(t0, row@);
        assert(crate::statement::all_valid(row_names(row@))) by {
            assert forall|j: int|
                0 <= j < row_names(row@).len() implies crate::text::valid_name(
                #[trigger] row_names(row@)[j],
            ) by {
                assert(row_names(row@)[j] == task_columns_spec()[j]);
            }
        }
    }
    let q = crate::store::object_insert_query("solve_task", row, Task::columns());
    proof {
        assert(q.text() =~= "INSERT INTO "@ + quoted("solve_task"@) + " ("@ + names_sql(
            task_columns_spec().skip(1),
        ) + ") VALUES ("@ + values_sql(0, 5) + ")"@ + " RETURNING "@ + names_sql(
            task_columns_spec(),
        ));
        assert(q.vals() =~= task_row_values(t0).skip(1));
    }
    Ok(q)
}


/// The columns of the task event table, in declaration order: the
/// task's own, then the event log's.
pub open spec fn task_event_columns_spec() -> Seq<Seq<char>> {
    task_columns_spec() + event_columns_suffix()
}

/// The columns an event insert writes: everything but the log's own id,
/// which the database assigns.
pub open spec fn task_event_insert_columns() -> Seq<Seq<char>> {
    task_columns_spec() + seq!["event_time"@, "event_account_id"@, "event_kind"@]
}

/// The task event table's columns.
pub fn task_event_columns() -> (r: Vec<String>)
    ensures
        crate::statement::views_of(r@) =~= task_event_columns_spec(),
{
    let mut r = Task::columns();
    r.push("event_id".to_owned());
    r.push("event_time".to_owned());
    r.push("event_account_id".to_owned());
    r.push("event_kind".to_owned());
    proof {
        assert(crate::statement::views_of(r@) =~= task_event_columns_spec());
    }
    r
}

/// The insert that appends one event row for a task mutation: the
/// mutated row itself, with the event's time, actor and kind, returning
/// the stored event columns.  An unknown event kind is refused before
/// anything is written.  The caller runs it in the same transaction as
/// the mutation it records.
pub fn task_event_query(object: Task, kind: EventKind, time: Instant, account_id: Option<i64>) -> (
    r: Result<RawQuery, Error>)
    ensures
        match r {
            Ok(q) => {
                &&& !(kind is Unknown)
                &&& q.text() == "INSERT INTO "@ + quoted("solve_task_event"@) + " ("@ + names_sql(
                    task_event_insert_columns(),
                ) + ") VALUES ("@ + values_sql(0, 9) + ")"@ + " RETURNING "@ + names_sql(
                    task_event_columns_spec(),
                )
                &&& q.vals() == task_row_values(object) + seq![
                    Value::BigInt(time.secs),
                    crate::objects::opt_i64_value(account_id),
                    Value::BigInt((event_kind_code(kind)) as i64),
                ]
            },
            Err(e) => kind is Unknown && e.spec_kind() == ErrorKind::ValueParse,
        },
{
    match crate::store::check_event_kind(&kind) {
        Ok(_) => {},
        Err(e) => {
            return Err(e);
        },
    }
    proof {
        reveal_strlit("solve_task_event");
        reveal_strlit("id");
        reveal_strlit("kind");
        reveal_strlit("config");
        reveal_strlit("status");
        reveal_strlit("state");
        reveal_strlit("expire_time");
        reveal_strlit("event_id");
        reveal_strlit("event_time");
        reveal_strlit("event_account_id");
        reveal_strlit("event_kind");
    }
    let ghost t0 = object;
    let row = event_row(object.into_row(), 0, time, account_id, kind);
    let ghost rn = row_names(row@);
    let ghost rv = row_values(row@);
    proof {
        assert(rn =~= task_event_columns_spec());
        assert(rv =~= task_row_values(t0) + event_values_suffix(0, time, account_id, kind));
        assert(row@.len() == 10) by {
            assert(rn.len() == task_event_columns_spec().len());
        }
        crate::objects::lemma_task_columns_valid();
        assert(crate::statement::all_valid(rn)) by {
            assert forall|j: int|
                0 <= j < rn.len() implies crate::text::valid_name(#[trigger] rn[j]) by {
                if j < 6 {
                    assert(rn[j] == task_columns_spec()[j]);
                } else {
                    assert(rn[j] == event_columns_suffix()[j - 6]);
                }
            }
        }
        assert(("event_id"@).len() == 8);
        assert(row@[6].0@ == "event_id"@) by {
            assert(rn[6] == row@[6].0@);
        }
        assert forall|j: int|
            0 <= j < row@.len() && j != 6 implies (#[trigger] row@[j]).0@ != "event_id"@ by {
            assert(rn[j] == row@[j].0@);
            if j == 0 {
                assert(("id"@).len() == 2);
            } else if j == 1 {
                assert(("kind"@).len() == 4);
            } else if j == 2 {
                assert(("config"@).len() == 6);
            } else if j == 3 {
                assert(("status"@).len() == 6);
            } else if j == 4 {
                assert(("state"@).len() == 5);
            } else if j == 5 {
                assert(("expire_time"@).len() == 11);
            } else if j == 7 {
                assert(("event_time"@).len() == 10);
            } else if j == 8 {
                assert(("event_account_id"@).len() == 16);
            } else {
                assert(("event_kind"@).len() == 10);
            }
        }
        crate::store::lemma_row_without_single(row@, "event_id"@, 6);
        let w = row_without(row@, "event_id"@);
        assert(w =~= row@.take(6) + row@.skip(7));
        assert(w.len() == 9);
        assert(row_names(w) =~= task_event_insert_columns()) by {
            assert forall|j: int|
                0 <= j < 9 implies #[trigger] row_names(w)[j] == task_event_insert_columns()[j] by {
                assert(row_names(w)[j] == w[j].0@);
                if j < 6 {
                    assert(w[j] == row@[j]);
                    assert(rn[j] == row@[j].0@);
                } else {
                    assert(w[j] == row@[j + 1]);
                    assert(rn[j + 1] == row@[j + 1].0@);
                }
            }
        }
        assert(row_values(w) =~= task_row_values(t0) + seq![
            Value::BigInt(time.secs),
            crate::objects::opt_i64_value(account_id),
            Value::BigInt((event_kind_code(kind)) as i64),
        ]) by {
            assert forall|j: int|
                0 <= j < 9 implies #[trigger] row_values(w)[j] == (task_row_values(t0) + seq![
                    Value::BigInt(time.secs),
                    crate::objects::opt_i64_value(account_id),
                    Value::BigInt((event_kind_code(kind)) as i64),
                ])[j] by {
                assert(row_values(w)[j] == w[j].1);
                if j < 6 {
                    assert(w[j] == row@[j]);
                    assert(rv[j] == row@[j].1);
                } else {
                    assert(w[j] == row@[j + 1]);
                    assert(rv[j + 1] == row@[j + 1].1);
                }
            }
        }
    }
    let q = event_insert_query("solve_task_event", row, task_event_columns());
    proof {
        assert(q.text() =~= "INSERT INTO "@ + quoted("solve_task_event"@) + " ("@ + names_sql(
            task_event_insert_columns(),
        ) + ") VALUES ("@ + values_sql(0, 9) + ")"@ + " RETURNING "@ + names_sql(
            task_event_columns_spec(),
        ));
    }
    Ok(q)
}

/// The guarded update a claim, a ping or a terminal write runs: the new
/// row, fenced on the primary key and the observed `(kind, status,
/// expire_time)` tuple, returning the stored columns.  Zero affected
/// rows mean the fence failed: the task was claimed or renewed by
/// someone else.
pub fn task_update_query(
    new_task: Task,
    kind: TaskKind,
    status: TaskStatus,
    expire: Option<Instant>,
) -> (r: RawQuery)
    ensures
        r.text() == "UPDATE "@ + quoted("solve_task"@) + " SET "@ + set_sql(
            task_columns_spec().skip(1),
            0,
        ) + " WHERE "@ + quoted("id"@) + " = "@ + placeholder(6) + " AND "@ + fence_sql(
            kind,
            status,
            expire,
            6,
        ) + " RETURNING "@ + names_sql(task_columns_spec()),
        r.vals() == task_row_values(new_task).skip(1) + seq![Value::BigInt(new_task.id)]
            + fence_vals(kind, status, expire),
{
    proof {
        reveal_strlit("solve_task");
        reveal_strlit("id");
    }
    let ghost t0 = new_task;
    let id = new_task.id;
    let fence = fence_predicate(kind, status, expire);
    let eq = column("id").equal(Expression::Value(Value::BigInt(id)));
    proof {
        assert(pred_ok(eq));
        assert(pred_vals(eq) =~= seq![Value::BigInt(id)]);
    }
    let guard = eq.and(fence);
    let row = new_task.into_row();
    proof {
        crate::objects::lemma_task_columns_valid();
        assert(row@.len() == 6) by {
            assert(row_names(row@).len() == task_columns_spec().len());
        }
        lemma_task_row_without_id(t0, row@);
        assert(crate::statement::all_valid(row_names(row@))) by {
            assert forall|j: int|
                0 <= j < row_names(row@).len() implies crate::text::valid_name(
                #[trigger] row_names(row@)[j],
            ) by {
                assert(row_names(row@)[j] == task_columns_spec()[j]);
            }
        }
        assert(pred_vals(guard) =~= seq![Value::BigInt(id)] + fence_vals(kind, status, expire));
    }
    let r = object_update_query("solve_task", row, guard, Task::columns());
    proof {
        assert(pred_sql(guard, 5) =~= quoted("id"@) + " = "@ + placeholder(6) + " AND "@
            + fence_sql(kind, status, expire, 6)) by {
            assert(crate::builder::side_sql(eq, 5, true) == pred_sql(eq, 5));
            assert(pred_sql(eq, 5) =~= quoted("id"@) + " = "@ + placeholder(6));
            assert(crate::builder::side_sql(fence, 6, true) == pred_sql(fence, 6));
            assert(pred_sql(fence, 6) == fence_sql(kind, status, expire, 6));
        }
        assert(set_sql(row_names(row_without(row@, "id"@)), 0) == set_sql(
            task_columns_spec().skip(1),
            0,
        ));
        assert(r.text() =~= "UPDATE "@ + quoted("solve_task"@) + " SET "@ + set_sql(
            task_columns_spec().skip(1),
            0,
        ) + " WHERE "@ + quoted("id"@) + " = "@ + placeholder(6) + " AND "@ + fence_sql(
            kind,
            status,
            expire,
            6,
        ) + " RETURNING "@ + names_sql(task_columns_spec()));
        assert(r.vals() =~= task_row_values(t0).skip(1) + seq![Value::BigInt(t0.id)]
            + fence_vals(kind, status, expire));
    }
    r
}

/// Stripping the primary key from a task's row leaves its other five
/// columns, in order.
proof fn lemma_task_row_without_id(t: Task, row: Seq<(String, Value)>)
    requires
        row_names(row) == task_columns_spec(),
        row_values(row) == task_row_values(t),
        row.len() == 6,
    ensures
        row_without(row, "id"@).len() == 5,
        row_names(row_without(row, "id"@)) =~= task_columns_spec().skip(1),
        row_values(row_without(row, "id"@)) =~= task_row_values(t).skip(1),
{
    reveal_strlit("id");
    reveal_strlit("kind");
    reveal_strlit("config");
    reveal_strlit("status");
    reveal_strlit("state");
    reveal_strlit("expire_time");
    reveal_with_fuel(crate::store::row_without, 8);
    assert(row[0].0@ == "id"@) by {
        assert(row_names(row)[0] == row[0].0@);
    }
    assert(row[1].0@ == "kind"@) by {
        assert(row_names(row)[1] == row[1].0@);
    }
    assert(row[2].0@ == "config"@) by {
        assert(row_names(row)[2] == row[2].0@);
    }
    assert(row[3].0@ == "status"@) by {
        assert(row_names(row)[3] == row[3].0@);
    }
    assert(row[4].0@ == "state"@) by {
        assert(row_names(row)[4] == row[4].0@);
    }
    assert(row[5].0@ == "expire_time"@) by {
        assert(row_names(row)[5] == row[5].0@);
    }
    let w = row_without(row, "id"@);
    assert(row.take(1).drop_last() =~= row.take(0));
    assert(row.take(1).last() == row[0]);
    assert(row.take(2).drop_last() =~= row.take(1));
    assert(row.take(2).last() == row[1]);
    assert(row.take(3).drop_last() =~= row.take(2));
    assert(row.take(3).last() == row[2]);
    assert(row.take(4).drop_last() =~= row.take(3));
    assert(row.take(4).last() == row[3]);
    assert(row.take(5).drop_last() =~= row.take(4));
    assert(row.take(5).last() == row[4]);
    assert(row.take(6) =~= row);
    assert(row.drop_last() =~= row.take(5));
    assert(("id"@).len() == 2);
    assert(row[1].0@ != "id"@) by {
        assert(("kind"@).len() == 4);
    }
    assert(row[2].0@ != "id"@) by {
        assert(("config"@).len() == 6);
    }
    assert(row[3].0@ != "id"@) by {
        assert(("status"@).len() == 6 && ("status"@)[0] == 's' && ("id"@)[0] == 'i');
    }
    assert(row[4].0@ != "id"@) by {
        assert(("state"@).len() == 5);
    }
    assert(row[5].0@ != "id"@) by {
        assert(("expire_time"@).len() == 11);
    }
    assert(row_without(row.take(0), "id"@) =~= Seq::<(String, Value)>::empty());
    assert(row_without(row.take(1), "id"@) =~= Seq::<(String, Value)>::empty());
    assert(row_without(row.take(2), "id"@) == row_without(row.take(1), "id"@) + seq![row[1]]);
    assert(row_without(row.take(2), "id"@) =~= seq![row[1]]);
    assert(row_without(row.take(3), "id"@) == row_without(row.take(2), "id"@) + seq![row[2]]);
    assert(row_without(row.take(3), "id"@) =~= seq![row[1], row[2]]);
    assert(row_without(row.take(4), "id"@) == row_without(row.take(3), "id"@) + seq![row[3]]);
    assert(row_without(row.take(4), "id"@) =~= seq![row[1], row[2], row[3]]);
    assert(row_without(row.take(5), "id"@) == row_without(row.take(4), "id"@) + seq![row[4]]);
    assert(row_without(row.take(5), "id"@) =~= seq![row[1], row[2], row[3], row[4]]);
    assert(w == row_without(row.take(5), "id"@) + seq![row[5]]);
    assert(w =~= seq![row[1], row[2], row[3], row[4], row[5]]);
    assert forall|j: int| 0 <= j < 5 implies row_names(w)[j] == task_columns_spec().skip(1)[j] by {
        assert(row_names(w)[j] == w[j].0@);
        assert(row_names(row)[j + 1] == row[j + 1].0@);
    }
    assert forall|j: int| 0 <= j < 5 implies row_values(w)[j] == task_row_values(t).skip(1)[j] by {
        assert(row_values(w)[j] == w[j].1);
        assert(row_values(row)[j + 1] == row[j + 1].1);
    }
}


/// A worker's live handle on its claimed task: the row as the worker
/// sees it, and the stored mirror whose `(kind, status, expire_time)`
/// tuple fences every write.  The worker builds each guarded write from
/// the mirror with [`check_lease`], [`ping_update`], [`status_update`]
/// and [`task_update_query`]; the runtime executes it, and the decoded
/// returned row settles the mirror here.
pub struct TaskHandle {
    task: Task,
    stored: Task,
}

impl TaskHandle {
    /// The worker's view of the row.
    pub closed spec fn view_task(&self) -> Task {
        self.task
    }

    /// The stored mirror the fences are built from.
    pub closed spec fn view_stored(&self) -> Task {
        self.stored
    }

    /// Wraps a freshly claimed row; both mirrors start as that row.
    pub fn new(claimed: Task) -> (r: TaskHandle)
        ensures
            r.view_stored() == claimed,
            crate::objects::task_like(r.view_task(), claimed),
    {
        let mirror = claimed.duplicate();
        TaskHandle { task: mirror, stored: claimed }
    }

    pub fn get_id(&self) -> (r: i64)
        ensures
            r == self.view_task().id,
    {
        self.task.id
    }

    pub fn get_kind(&self) -> (r: TaskKind)
        ensures
            r == self.view_task().kind,
    {
        self.task.kind
    }

    pub fn get_status(&self) -> (r: TaskStatus)
        ensures
            r == self.view_task().status,
    {
        self.task.status
    }

    pub fn get_state(&self) -> (r: &crate::models::JSON)
        ensures
            r == self.view_task().state,
    {
        &self.task.state
    }

    pub fn get_config(&self) -> (r: &crate::models::JSON)
        ensures
            r == self.view_task().config,
    {
        &self.task.config
    }

    /// The expiry of the stored lease; the pinger's decisions and the
    /// lease guard read it.
    pub fn lease_expiry(&self) -> (r: Option<Instant>)
        ensures
            r == self.view_stored().expire_time,
    {
        self.stored.expire_time
    }

    /// The observed fence tuple for the next guarded write.
    pub fn fence(&self) -> (r: (TaskKind, TaskStatus, Option<Instant>))
        ensures
            r.0 == self.view_stored().kind,
            r.1 == self.view_stored().status,
            r.2 == self.view_stored().expire_time,
    {
        (self.stored.kind, self.stored.status, self.stored.expire_time)
    }

    /// A copy of the stored mirror to build the next write from.
    pub fn snapshot(&self) -> (r: Task)
        ensures
            crate::objects::task_like(r, self.view_stored()),
    {
        self.stored.duplicate()
    }

    /// Settles both mirrors with the row a guarded update returned.
    pub fn commit(&mut self, returned: Task)
        ensures
            final(self).view_stored() == returned,
            crate::objects::task_like(final(self).view_task(), returned),
    {
        self.task = returned.duplicate();
        self.stored = returned;
    }
}


/// The Create event of a fresh task: the event's object is the persisted
/// row the insert returned (with its database-assigned id).  The insert
/// built by [`task_create_query`] and this one run in one transaction.
pub fn task_create_event_query(persisted: Task, time: Instant, account_id: Option<i64>) -> (r:
    RawQuery)
    ensures
        r.text() == "INSERT INTO "@ + quoted("solve_task_event"@) + " ("@ + names_sql(
            task_event_insert_columns(),
        ) + ") VALUES ("@ + values_sql(0, 9) + ")"@ + " RETURNING "@ + names_sql(
            task_event_columns_spec(),
        ),
        r.vals() == task_row_values(persisted) + seq![
            Value::BigInt(time.secs),
            crate::objects::opt_i64_value(account_id),
            Value::BigInt(1),
        ],
{
    match task_event_query(persisted, EventKind::Create, time, account_id) {
        Ok(q) => q,
        Err(_) => vstd::pervasive::unreached(),
    }
}

/// One task mutation as a unit: the guarded update of the row and the
/// Update event that records it, both pinned.  The two statements run in
/// one transaction; the event insert runs only when the update affected
/// one row (see [`crate::store::check_update_affected`]) — a lost fence
/// appends nothing.  The event's object is the written row: the update
/// overwrites every non-id column, so the returned row equals `new_task`.
pub fn task_update_queries(
    new_task: Task,
    kind: TaskKind,
    status: TaskStatus,
    expire: Option<Instant>,
    time: Instant,
    account_id: Option<i64>,
) -> (r: (RawQuery, RawQuery))
    ensures
        r.0.text() == "UPDATE "@ + quoted("solve_task"@) + " SET "@ + set_sql(
            task_columns_spec().skip(1),
            0,
        ) + " WHERE "@ + quoted("id"@) + " = "@ + placeholder(6) + " AND "@ + fence_sql(
            kind,
            status,
            expire,
            6,
        ) + " RETURNING "@ + names_sql(task_columns_spec()),
        r.0.vals() == task_row_values(new_task).skip(1) + seq![Value::BigInt(new_task.id)]
            + fence_vals(kind, status, expire),
        r.1.text() == "INSERT INTO "@ + quoted("solve_task_event"@) + " ("@ + names_sql(
            task_event_insert_columns(),
        ) + ") VALUES ("@ + values_sql(0, 9) + ")"@ + " RETURNING "@ + names_sql(
            task_event_columns_spec(),
        ),
        crate::value::values_like(
            r.1.vals(),
            task_row_values(new_task) + seq![
                Value::BigInt(time.secs),
                crate::objects::opt_i64_value(account_id),
                Value::BigInt(3),
            ],
        ),
{
    let ghost t0 = new_task;
    let mirror = new_task.duplicate();
    let update = task_update_query(new_task, kind, status, expire);
    let event = match task_event_query(mirror, EventKind::Update, time, account_id) {
        Ok(q) => q,
        Err(_) => vstd::pervasive::unreached(),
    };
    proof {
        crate::objects::lemma_task_like_values(mirror, t0);
        let want = task_row_values(t0) + seq![
            Value::BigInt(time.secs),
            crate::objects::opt_i64_value(account_id),
            Value::BigInt(3),
        ];
        assert forall|i: int|
            0 <= i < event.vals().len() implies crate::value::value_eq(
            &event.vals()[i],
            &want[i],
        ) by {
            if i < 6 {
                assert(event.vals()[i] == task_row_values(mirror)[i]);
            }
        }
    }
    (update, event)
}

/// One task deletion as a unit: the removal of the row by primary key
/// and the Delete event that records it, whose object is the zero task
/// carrying only the id.  The two statements run in one transaction; the
/// event insert runs only when exactly one row was deleted (see
/// [`crate::store::check_delete_affected`]).
pub fn task_delete_queries(id: i64, time: Instant, account_id: Option<i64>) -> (r: (
    RawQuery,
    RawQuery,
))
    ensures
        r.0.text() == "DELETE FROM "@ + quoted("solve_task"@) + " WHERE "@ + quoted("id"@)
            + " = "@ + placeholder(1),
        r.0.vals() == seq![Value::BigInt(id)],
        r.1.text() == "INSERT INTO "@ + quoted("solve_task_event"@) + " ("@ + names_sql(
            task_event_insert_columns(),
        ) + ") VALUES ("@ + values_sql(0, 9) + ")"@ + " RETURNING "@ + names_sql(
            task_event_columns_spec(),
        ),
        r.1.vals().len() == 9,
        is_zero_task_row(r.1.vals().take(6), id),
        r.1.vals().skip(6) =~= seq![
            Value::BigInt(time.secs),
            crate::objects::opt_i64_value(account_id),
            Value::BigInt(2),
        ],
{
    proof {
        reveal_strlit("solve_task");
        reveal_strlit("id");
    }
    let guard = id_guard(id, None);
    let removal = object_delete_query("solve_task", guard);
    proof {
        assert(removal.text() =~= "DELETE FROM "@ + quoted("solve_task"@) + " WHERE "@ + quoted(
            "id"@,
        ) + " = "@ + placeholder(1)) by {
            assert(pred_sql(guard, 0) =~= quoted("id"@) + " = "@ + placeholder(1));
        }
    }
    let zero = Task::zero(id);
    let ghost z0 = zero;
    let event = match task_event_query(zero, EventKind::Delete, time, account_id) {
        Ok(q) => q,
        Err(_) => vstd::pervasive::unreached(),
    };
    proof {
        assert(event.vals().take(6) =~= task_row_values(z0));
        assert(event.vals().skip(6) =~= seq![
            Value::BigInt(time.secs),
            crate::objects::opt_i64_value(account_id),
            Value::BigInt(2),
        ]);
    }
    (removal, event)
}

/// What the pinger does on one tick.
#[derive(Clone, Copy, Debug, PartialEq, Eq, Structural)]
pub enum PingerAction {
    /// The lease is already gone: cancel the handler.
    Cancel,
    /// The lease runs out soon: renew it.
    Ping,
    /// Plenty of lease left: sleep until the next tick.
    Wait,
}

/// The pinger's decision on one tick: cancel on an expired lease, renew
/// once less than the threshold remains, and otherwise wait.
pub fn pinger_action(expire: &Option<Instant>, now: Instant) -> (r: PingerAction)
    requires
        now.secs + PING_THRESHOLD_SECS <= i64::MAX,
    ensures
        r == (if is_expired_spec(*expire, now) {
            PingerAction::Cancel
        } else if is_expired_spec(*expire, Instant { secs: (now.secs + PING_THRESHOLD_SECS) as i64 }) {
            PingerAction::Ping
        } else {
            PingerAction::Wait
        }),
{
    if is_expired(expire, now) {
        PingerAction::Cancel
    } else if is_expired(expire, now.plus_secs(PING_THRESHOLD_SECS)) {
        PingerAction::Ping
    } else {
        PingerAction::Wait
    }
}

/// A lease-guarded mutation is refused once the stored lease has expired;
/// the task will be reclaimed by another worker.
pub fn check_lease(stored_expire: &Option<Instant>, now: Instant) -> (r: Result<(), Error>)
    ensures
        match r {
            Ok(_) => !is_expired_spec(*stored_expire, now),
            Err(e) => is_expired_spec(*stored_expire, now) && e.spec_kind()
                == ErrorKind::Conflict,
        },
{
    if is_expired(stored_expire, now) {
        Err(Error::Conflict("task expired".to_owned()))
    } else {
        Ok(())
    }
}

/// The renewed form of a task: leased until `now + delta`.
pub fn ping_update(task: Task, now: Instant, delta: i64) -> (r: Task)
    requires
        now.secs + delta <= i64::MAX,
        now.secs + delta >= i64::MIN,
    ensures
        r.id == task.id,
        r.kind == task.kind,
        r.config == task.config,
        r.status == task.status,
        r.state == task.state,
        r.expire_time == Some(Instant { secs: (now.secs + delta) as i64 }),
{
    let Task { id, kind, config, status, state, expire_time: _ } = task;
    Task { id, kind, config, status, state, expire_time: Some(now.plus_secs(delta)) }
}

/// The task with a new status; everything else is kept.
pub fn status_update(task: Task, status: TaskStatus) -> (r: Task)
    ensures
        r.id == task.id,
        r.kind == task.kind,
        r.config == task.config,
        r.status == status,
        r.state == task.state,
        r.expire_time == task.expire_time,
{
    let Task { id, kind, config, status: _, state, expire_time } = task;
    Task { id, kind, config, status, state, expire_time }
}

/// The task with new handler state; everything else is kept.
pub fn state_update(task: Task, state: crate::models::JSON) -> (r: Task)
    ensures
        r.id == task.id,
        r.kind == task.kind,
        r.config == task.config,
        r.status == task.status,
        r.state == state,
        r.expire_time == task.expire_time,
{
    let Task { id, kind, config, status, state: _, expire_time } = task;
    Task { id, kind, config, status, state, expire_time }
}

} // verus!
