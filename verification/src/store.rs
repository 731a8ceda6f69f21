//! The object/event store: every mutation of an object row is paired with
//! an appended event row, updates can be guarded by an optimistic fence,
//! and the event log of one object follows the lifecycle
//! `Create, Update*, Delete?`.
//!
//! The store builds exact queries; executing them against a database and
//! walking transactions happens outside the library.

use vstd::prelude::*;

use crate::builder::{column, pred_ok, pred_vals, Predicate};
use crate::error::{Error, ErrorKind};
use crate::models::{EventKind, Instant};
use crate::query::{QueryBuilder, RawQuery};
use crate::statement::{
    all_valid, delete_sql, insert_sql, row_names, row_values, update_sql, views_of, Delete,
    Insert, Select, Update,
};
use crate::text::valid_name;
use crate::value::Value;

verus! {

/// Who performs an operation, carried into the event row — and whether
/// the operation joins a transaction the caller already holds.
#[derive(Clone, Copy, Debug, PartialEq, Eq, Structural)]
pub struct Context {
    pub account_id: Option<i64>,
    pub in_transaction: bool,
}

impl Context {
    pub fn new() -> (r: Context)
        ensures
            r.account_id is None,
            !r.in_transaction,
    {
        Context { account_id: None, in_transaction: false }
    }

    pub fn with_account_id(self, account_id: i64) -> (r: Context)
        ensures
            r.account_id == Some(account_id),
            r.in_transaction == self.in_transaction,
    {
        Context { account_id: Some(account_id), ..self }
    }

    /// Marks the context as running inside the caller's transaction.
    pub fn with_transaction(self) -> (r: Context)
        ensures
            r.account_id == self.account_id,
            r.in_transaction,
    {
        Context { in_transaction: true, ..self }
    }
}

/// One entry of the append-only event log: the mutated object together
/// with what happened to it, when, and on whose behalf.
#[derive(Clone, Debug)]
pub struct BaseEvent<O> {
    pub id: i64,
    pub time: Instant,
    pub account_id: Option<i64>,
    pub kind: EventKind,
    pub object: O,
}

impl<O> BaseEvent<O> {
    /// The event appended when an object is created.
    pub fn create(object: O, time: Instant, account_id: Option<i64>) -> (r: BaseEvent<O>)
        ensures
            r.id == 0,
            r.time == time,
            r.account_id == account_id,
            r.kind == EventKind::Create,
            r.object == object,
    {
        BaseEvent { id: 0, time, account_id, kind: EventKind::Create, object }
    }

    /// The event appended when an object is updated.
    pub fn update(object: O, time: Instant, account_id: Option<i64>) -> (r: BaseEvent<O>)
        ensures
            r.id == 0,
            r.time == time,
            r.account_id == account_id,
            r.kind == EventKind::Update,
            r.object == object,
    {
        BaseEvent { id: 0, time, account_id, kind: EventKind::Update, object }
    }

    /// The event appended when an object is deleted; `object` carries only
    /// the deleted id in an otherwise zero object.
    pub fn delete(object: O, time: Instant, account_id: Option<i64>) -> (r: BaseEvent<O>)
        ensures
            r.id == 0,
            r.time == time,
            r.account_id == account_id,
            r.kind == EventKind::Delete,
            r.object == object,
    {
        BaseEvent { id: 0, time, account_id, kind: EventKind::Delete, object }
    }

    pub fn into_object(self) -> (r: O)
        ensures
            r == self.object,
    {
        self.object
    }
}

/// The event-specific columns appended after an object's own columns.
pub open spec fn event_columns_suffix() -> Seq<Seq<char>> {
    seq!["event_id"@, "event_time"@, "event_account_id"@, "event_kind"@]
}

/// The event-specific values appended after an object's own values.
pub open spec fn event_values_suffix(id: i64, time: Instant, account_id: Option<i64>, kind:
    EventKind) -> Seq<Value> {
    seq![
        Value::BigInt(id),
        Value::BigInt(time.secs),
        crate::objects::opt_i64_value(account_id),
        Value::BigInt((crate::models::event_kind_code(kind)) as i64),
    ]
}

/// Appends the event columns to an object's row.
pub fn event_row(
    object_row: Vec<(String, Value)>,
    id: i64,
    time: Instant,
    account_id: Option<i64>,
    kind: EventKind,
) -> (r: Vec<(String, Value)>)
    ensures
        row_names(r@) =~= row_names(object_row@) + event_columns_suffix(),
        row_values(r@) =~= row_values(object_row@) + event_values_suffix(
            id,
            time,
            account_id,
            kind,
        ),
{
    let ghost orig = object_row@;
    let mut r = object_row;
    r.push(("event_id".to_owned(), Value::BigInt(id)));
    r.push(("event_time".to_owned(), time.into_value()));
    r.push(("event_account_id".to_owned(), Value::of_opt_i64(account_id)));
    r.push(("event_kind".to_owned(), kind.into_value()));
    proof {
        let ghost vs = row_names(r@);
        let ghost target = row_names(orig) + event_columns_suffix();
        assert(vs.len() == target.len());
        assert forall|j: int| 0 <= j < vs.len() implies vs[j] == target[j] by {
            if j < orig.len() {
                assert(r@[j] == orig[j]);
                assert(row_names(orig)[j] == orig[j].0@);
            }
        }
        assert(vs =~= target);
        let ghost ws = row_values(r@);
        let ghost wt = row_values(orig) + event_values_suffix(id, time, account_id, kind);
        assert(ws.len() == wt.len());
        assert forall|j: int| 0 <= j < ws.len() implies ws[j] == wt[j] by {
            if j < orig.len() {
                assert(r@[j] == orig[j]);
                assert(row_values(orig)[j] == orig[j].1);
            }
        }
        assert(ws =~= wt);
    }
    r
}

/// A row with every pair under the given column name removed.
pub open spec fn row_without(row: Seq<(String, Value)>, name: Seq<char>) -> Seq<(String, Value)>
    decreases row.len(),
{
    if row.len() == 0 {
        Seq::<(String, Value)>::empty()
    } else {
        row_without(row.drop_last(), name) + (if row.last().0@ == name {
            Seq::<(String, Value)>::empty()
        } else {
            seq![row.last()]
        })
    }
}

/// Removes the pairs under the given column name (the primary key is
/// never inserted or updated explicitly).
pub fn strip_column(row: Vec<(String, Value)>, name: &str) -> (r: Vec<(String, Value)>)
    ensures
        r@ == row_without(row@, name@),
{
    let ghost orig = row@;
    let mut row = row;
    let mut r: Vec<(String, Value)> = Vec::new();
    let n = row.len();
    let mut i: usize = 0;
    while i < n
        invariant
            i <= n,
            n == orig.len(),
            row@ == orig.skip(i as int),
            r@ == row_without(orig.take(i as int), name@),
        decreases n - i,
    {
        let pair = row.remove(0);
        proof {
            assert(pair == orig[i as int]);
            assert(row@ =~= orig.skip(i as int + 1));
            assert(orig.take(i as int + 1).drop_last() =~= orig.take(i as int));
            assert(orig.take(i as int + 1).last() == orig[i as int]);
        }
        let keep = !crate::text::str_eq(pair.0.as_str(), name);
        if keep {
            r.push(pair);
        }
        proof {
            assert(r@ =~= row_without(orig.take(i as int + 1), name@));
        }
        i += 1;
    }
    proof {
        assert(orig.take(n as int) =~= orig);
    }
    r
}

/// Stripping a column keeps the remaining names quotable.
proof fn lemma_row_without_valid(row: Seq<(String, Value)>, name: Seq<char>)
    requires
        all_valid(row_names(row)),
    ensures
        all_valid(row_names(row_without(row, name))),
        row_without(row, name).len() <= row.len(),
{
    lemma_row_without_names(row, name);
    let st = row_without(row, name);
    assert forall|j: int| 0 <= j < row_names(st).len() implies valid_name(
        #[trigger] row_names(st)[j],
    ) by {
        assert(row_names(st)[j] == st[j].0@);
        let i = choose|i: int| 0 <= i < row.len() && row_without(row, name)[j] == row[i];
        assert(row_names(row)[i] == row[i].0@);
        assert(valid_name(row_names(row)[i]));
    }
}

/// The query that inserts an object row (without its primary key) and
/// returns the stored columns.
pub fn object_insert_query(table: &str, row: Vec<(String, Value)>, returning: Vec<String>) -> (r:
    RawQuery)
    requires
        valid_name(table@),
        all_valid(row_names(row@)),
        all_valid(views_of(returning@)),
        row@.len() <= usize::MAX,
    ensures
        r.text() == insert_sql(
            table@,
            row_names(row_without(row@, "id"@)),
            row_without(row@, "id"@).len() as int,
            views_of(returning@),
            0,
        ),
        r.vals() == row_values(row_without(row@, "id"@)),
    decreases 0int,
{
    let ghost orig = row@;
    let stripped = strip_column(row, "id");
    proof {
        lemma_row_without_valid(orig, "id"@);
        assert(row_values(stripped@) =~= Seq::<Value>::empty() + row_values(stripped@));
    }
    let query = Insert::new().with_table(table).with_row(stripped).with_returning(returning);
    let r = query.into_query(QueryBuilder::new());
    proof {
        assert(r.vals() =~= row_values(row_without(orig, "id"@)));
    }
    r
}

/// Stripping a column keeps every other pair, so the remaining names stay
/// quotable.
proof fn lemma_row_without_names(row: Seq<(String, Value)>, name: Seq<char>)
    ensures
        row_without(row, name).len() <= row.len(),
        forall|j: int|
            0 <= j < row_without(row, name).len() ==> exists|i: int|
                0 <= i < row.len() && #[trigger] row_without(row, name)[j] == row[i],
    decreases row.len(),
{
    if row.len() > 0 {
        lemma_row_without_names(row.drop_last(), name);
        assert forall|j: int| 0 <= j < row_without(row, name).len() implies exists|i: int|
            0 <= i < row.len() && #[trigger] row_without(row, name)[j] == row[i] by {
            let prev = row_without(row.drop_last(), name);
            if j < prev.len() {
                let i = choose|i: int|
                    0 <= i < row.drop_last().len() && prev[j] == row.drop_last()[i];
                assert(row.drop_last()[i] == row[i]);
                assert(row_without(row, name)[j] == row[i]);
            } else {
                assert(row_without(row, name)[j] == row.last());
                assert(row.last() == row[row.len() - 1]);
            }
        }
    }
}


/// A row with no pair under the name is untouched by the stripping.
pub proof fn lemma_row_without_none(row: Seq<(String, Value)>, name: Seq<char>)
    requires
        forall|j: int| 0 <= j < row.len() ==> (#[trigger] row[j]).0@ != name,
    ensures
        row_without(row, name) =~= row,
    decreases row.len(),
{
    if row.len() > 0 {
        lemma_row_without_none(row.drop_last(), name);
        assert forall|j: int|
            0 <= j < row.drop_last().len() implies (#[trigger] row.drop_last()[j]).0@ != name by {
            assert(row.drop_last()[j] == row[j]);
        }
        assert(row.last() == row[row.len() - 1]);
    }
}

/// Stripping a name that occurs exactly once, at position `m`, removes
/// that pair alone.
pub proof fn lemma_row_without_single(row: Seq<(String, Value)>, name: Seq<char>, m: int)
    requires
        0 <= m < row.len(),
        row[m].0@ == name,
        forall|j: int| 0 <= j < row.len() && j != m ==> (#[trigger] row[j]).0@ != name,
    ensures
        row_without(row, name) =~= row.take(m) + row.skip(m + 1),
    decreases row.len(),
{
    if m == row.len() - 1 {
        assert(row.last() == row[m]);
        assert forall|j: int|
            0 <= j < row.drop_last().len() implies (#[trigger] row.drop_last()[j]).0@ != name by {
            assert(row.drop_last()[j] == row[j]);
        }
        lemma_row_without_none(row.drop_last(), name);
        assert(row.drop_last() =~= row.take(m));
        assert(row.skip(m + 1) =~= Seq::<(String, Value)>::empty());
        assert(row_without(row, name) =~= row.take(m) + row.skip(m + 1));
    } else {
        assert(row.last() == row[row.len() - 1]);
        assert(row.last().0@ != name);
        let prev = row.drop_last();
        assert(prev[m] == row[m]);
        assert forall|j: int|
            0 <= j < prev.len() && j != m implies (#[trigger] prev[j]).0@ != name by {
            assert(prev[j] == row[j]);
        }
        lemma_row_without_single(prev, name, m);
        assert(prev.take(m) =~= row.take(m));
        assert(row_without(row, name) =~= prev.take(m) + prev.skip(m + 1) + seq![row.last()]);
        assert(prev.skip(m + 1) + seq![row.last()] =~= row.skip(m + 1));
        assert(row_without(row, name) =~= row.take(m) + row.skip(m + 1));
    }
}

/// The query that inserts an event row (without its own id; the mutated
/// object's id is stored) and returns the stored event columns.
pub fn event_insert_query(table: &str, row: Vec<(String, Value)>, returning: Vec<String>) -> (r:
    RawQuery)
    requires
        valid_name(table@),
        all_valid(row_names(row@)),
        all_valid(views_of(returning@)),
        row@.len() <= usize::MAX,
    ensures
        r.text() == insert_sql(
            table@,
            row_names(row_without(row@, "event_id"@)),
            row_without(row@, "event_id"@).len() as int,
            views_of(returning@),
            0,
        ),
        r.vals() == row_values(row_without(row@, "event_id"@)),
{
    let ghost orig = row@;
    let stripped = strip_column(row, "event_id");
    proof {
        lemma_row_without_valid(orig, "event_id"@);
        assert(row_values(stripped@) =~= Seq::<Value>::empty() + row_values(stripped@));
    }
    let query = Insert::new().with_table(table).with_row(stripped).with_returning(returning);
    let r = query.into_query(QueryBuilder::new());
    proof {
        assert(r.vals() =~= row_values(row_without(orig, "event_id"@)));
    }
    r
}

/// A guarded update that affected no row lost its optimistic race: the
/// caller abandons the attempt as a conflict, and nothing further (no
/// event) is written.
pub fn check_update_affected(affected: u64) -> (r: Result<(), Error>)
    ensures
        match r {
            Ok(_) => affected == 1,
            Err(e) => affected != 1 && e.spec_kind() == ErrorKind::Conflict,
        },
{
    if affected == 1 {
        Ok(())
    } else {
        Err(Error::Conflict("update affected no row".to_owned()))
    }
}

/// A deletion that removed no row names a missing object: the caller
/// reports it and writes no event.
pub fn check_delete_affected(affected: u64) -> (r: Result<(), Error>)
    ensures
        match r {
            Ok(_) => affected == 1,
            Err(e) => affected != 1 && e.spec_kind() == ErrorKind::NotFound,
        },
{
    if affected == 1 {
        Ok(())
    } else {
        Err(Error::NotFound("cannot delete object".to_owned()))
    }
}

/// The event log records only known mutations: an `Unknown` event kind
/// is refused before anything is written.
pub fn check_event_kind(kind: &EventKind) -> (r: Result<(), Error>)
    ensures
        match r {
            Ok(_) => !(kind is Unknown),
            Err(e) => kind is Unknown && e.spec_kind() == ErrorKind::ValueParse,
        },
{
    match kind {
        EventKind::Unknown(_) => Err(Error::ValueParse("unknown event kind".to_owned())),
        _ => Ok(()),
    }
}

/// The column-equality shape: `"name" = <value>`.
pub open spec fn is_column_equals(p: Predicate, name: Seq<char>, v: Value) -> bool {
    match p {
        Predicate::Equal(b) => {
            &&& (*b.left matches crate::builder::Expression::Column(s) && s@ == name)
            &&& *b.right == crate::builder::Expression::Value(v)
        },
        _ => false,
    }
}

/// The guard of an update by primary key: `"id" = $1`, conjoined with the
/// caller's fence when one is given.
pub open spec fn is_update_guard(g: Predicate, id: i64, fence: Option<Predicate>) -> bool {
    match fence {
        Some(p) => match g {
            Predicate::And(b) => is_column_equals(*b.left, "id"@, Value::BigInt(id)) && *b.right
                == p,
            _ => false,
        },
        None => is_column_equals(g, "id"@, Value::BigInt(id)),
    }
}

/// Builds the guard of an update by primary key.
pub fn id_guard(id: i64, fence: Option<Predicate>) -> (r: Predicate)
    ensures
        is_update_guard(r, id, fence),
        pred_ok(r) == (match fence {
            Some(p) => pred_ok(p),
            None => true,
        }),
        pred_vals(r) =~= seq![Value::BigInt(id)] + (match fence {
            Some(p) => pred_vals(p),
            None => Seq::<Value>::empty(),
        }),
{
    proof {
        reveal_strlit("id");
    }
    let eq = column("id").equal(crate::builder::Expression::Value(Value::BigInt(id)));
    proof {
        assert(pred_ok(eq));
        assert(pred_vals(eq) =~= seq![Value::BigInt(id)]);
    }
    match fence {
        Some(p) => {
            let r = eq.and(p);
            proof {
                assert(pred_vals(r) =~= seq![Value::BigInt(id)] + pred_vals(p));
            }
            r
        },
        None => {
            proof {
                assert(pred_vals(eq) =~= seq![Value::BigInt(id)] + Seq::<Value>::empty());
            }
            eq
        },
    }
}

/// The query that updates an object row by primary key under the given
/// guard, and returns the stored columns.
pub fn object_update_query(
    table: &str,
    row: Vec<(String, Value)>,
    guard: Predicate,
    returning: Vec<String>,
) -> (r: RawQuery)
    requires
        valid_name(table@),
        all_valid(row_names(row@)),
        all_valid(views_of(returning@)),
        pred_ok(guard),
        row@.len() + pred_vals(guard).len() <= usize::MAX,
        row_without(row@, "id"@).len() > 0,
    ensures
        r.text() == update_sql(
            table@,
            row_without(row@, "id"@),
            guard,
            views_of(returning@),
            0,
        ),
        r.vals() == row_values(row_without(row@, "id"@)) + pred_vals(guard),
{
    let ghost orig = row@;
    let stripped = strip_column(row, "id");
    proof {
        lemma_row_without_valid(orig, "id"@);
    }
    let query = Update::new().with_table(table).with_row(stripped).with_where(
        guard,
    ).with_returning(returning);
    let r = query.into_query(QueryBuilder::new());
    proof {
        assert(r.vals() =~= row_values(row_without(orig, "id"@)) + pred_vals(query.predicate));
    }
    r
}

/// The query that deletes an object row under the given guard (the
/// primary-key equality, possibly fenced).
pub fn object_delete_query(table: &str, guard: Predicate) -> (r: RawQuery)
    requires
        valid_name(table@),
        pred_ok(guard),
        pred_vals(guard).len() <= usize::MAX,
    ensures
        r.text() == delete_sql(table@, guard, 0),
        r.vals() == pred_vals(guard),
{
    let query = Delete::new().with_table(table).with_where(guard);
    let r = query.into_query(QueryBuilder::new());
    proof {
        assert(r.vals() =~= pred_vals(query.predicate));
    }
    r
}

/// The query that lists an object table: the caller's filter and limit,
/// the stored columns, and always a deterministic `ORDER BY` on the
/// primary key (a caller-supplied ordering is overridden).
pub fn object_find_query(table: &str, columns: Vec<String>, select: Select) -> (r: RawQuery)
    requires
        valid_name(table@),
        columns@.len() > 0,
        all_valid(views_of(columns@)),
        pred_ok(select.predicate),
        pred_vals(select.predicate).len() <= usize::MAX,
    ensures
        r.text() == crate::statement::select_sql(
            table@,
            views_of(columns@),
            select.predicate,
            seq!["id"@],
            select.limit as int,
            0,
        ),
        r.vals() == pred_vals(select.predicate),
{
    proof {
        reveal_strlit("id");
    }
    let mut order: Vec<String> = Vec::new();
    order.push("id".to_owned());
    let query = select.with_table(table).with_columns(columns).with_order_by(order);
    let r = query.into_query(QueryBuilder::new());
    proof {
        assert(views_of(query.order_by@) =~= seq!["id"@]);
        assert(r.vals() =~= pred_vals(query.predicate));
    }
    r
}

/// Where an object stands in its life: not yet created, live, or deleted.
#[derive(Clone, Copy, Debug, PartialEq, Eq, Structural)]
pub enum ObjectPhase {
    Absent,
    Live,
    Gone,
}

/// The lifecycle transition an event kind performs: objects are created
/// once, updated while live, and deleted at most once; nothing follows a
/// deletion.
pub open spec fn lifecycle_step_spec(p: ObjectPhase, k: EventKind) -> Option<ObjectPhase> {
    match (p, k) {
        (ObjectPhase::Absent, EventKind::Create) => Some(ObjectPhase::Live),
        (ObjectPhase::Live, EventKind::Update) => Some(ObjectPhase::Live),
        (ObjectPhase::Live, EventKind::Delete) => Some(ObjectPhase::Gone),
        _ => None,
    }
}

/// Applies one event to an object's phase; `None` is a refused mutation.
pub fn lifecycle_step(p: ObjectPhase, k: EventKind) -> (r: Option<ObjectPhase>)
    ensures
        r == lifecycle_step_spec(p, k),
{
    match (p, k) {
        (ObjectPhase::Absent, EventKind::Create) => Some(ObjectPhase::Live),
        (ObjectPhase::Live, EventKind::Update) => Some(ObjectPhase::Live),
        (ObjectPhase::Live, EventKind::Delete) => Some(ObjectPhase::Gone),
        _ => None,
    }
}

/// The phase an object reaches after a history of accepted events, if
/// every step was accepted.
pub open spec fn phase_after(h: Seq<EventKind>) -> Option<ObjectPhase>
    decreases h.len(),
{
    if h.len() == 0 {
        Some(ObjectPhase::Absent)
    } else {
        match phase_after(h.drop_last()) {
            Some(p) => lifecycle_step_spec(p, h.last()),
            None => None,
        }
    }
}

/// The lifecycle shape: a prefix of `Create, Update*, Delete`.
pub open spec fn history_ok(h: Seq<EventKind>) -> bool {
    h.len() == 0 || (h[0] == EventKind::Create && forall|i: int|
        1 <= i < h.len() ==> (h[i] == EventKind::Update || (h[i] == EventKind::Delete && i
            == h.len() - 1)))
}

/// The event log of one object id is always a prefix of
/// `Create, Update*, Delete`: any history the store's lifecycle steps
/// accept has that shape.
pub proof fn lemma_event_history_shape(h: Seq<EventKind>)
    requires
        phase_after(h) is Some,
    ensures
        history_ok(h),
        phase_after(h) == Some(ObjectPhase::Absent) ==> h.len() == 0,
        phase_after(h) == Some(ObjectPhase::Gone) ==> h.len() > 0 && h.last()
            == EventKind::Delete,
        phase_after(h) == Some(ObjectPhase::Live) ==> h.len() > 0 && h[0] == EventKind::Create
            && (forall|i: int| 1 <= i < h.len() ==> h[i] == EventKind::Update),
    decreases h.len(),
{
    if h.len() > 0 {
        let prev = h.drop_last();
        lemma_event_history_shape(prev);
        let p = phase_after(prev)->0;
        assert(lifecycle_step_spec(p, h.last()) is Some);
        if p == ObjectPhase::Absent {
            assert(prev.len() == 0);
            assert(h.last() == EventKind::Create);
            assert(h[0] == h.last());
        } else {
            assert(p == ObjectPhase::Live);
            assert(h[0] == prev[0]);
            assert forall|i: int| 1 <= i < h.len() implies (h[i] == EventKind::Update || (h[i]
                == EventKind::Delete && i == h.len() - 1)) by {
                if i < h.len() - 1 {
                    assert(h[i] == prev[i]);
                }
            }
            if h.last() == EventKind::Update {
                assert forall|i: int| 1 <= i < h.len() implies h[i] == EventKind::Update by {
                    if i < h.len() - 1 {
                        assert(h[i] == prev[i]);
                    }
                }
            }
        }
    }
}

} // verus!
