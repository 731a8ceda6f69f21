//! Row-backed objects.  Each object declares its columns, encodes itself
//! into a row of `(column, value)` pairs, and decodes from a fetched row;
//! both directions carry exact contracts.

use vstd::prelude::*;

use crate::error::Error;
use crate::models::{
    account_kind_decode, file_status_decode, solution_kind_decode, task_kind_decode,
    task_status_decode, AccountKind, FileStatus, Instant, JSON, SolutionKind, TaskKind,
    TaskStatus,
};
use crate::row::Row;
use crate::statement::{row_names, row_values};
use crate::value::Value;

verus! {

/// A JSON column holds the serialised text, either as text or as UTF-8
/// bytes.
pub open spec fn json_col_matches(v: Option<Value>, j: JSON) -> bool {
    match v {
        Some(Value::Text(s)) => j.text@ == s@,
        Some(Value::Blob(b)) => vstd::utf8::valid_utf8(b@) && j.text@ == vstd::utf8::decode_utf8(
            b@,
        ),
        _ => false,
    }
}

/// Whether a JSON column decodes at all.
pub open spec fn json_col_ok(v: Option<Value>) -> bool {
    match v {
        Some(Value::Text(_)) => true,
        Some(Value::Blob(b)) => vstd::utf8::valid_utf8(b@),
        _ => false,
    }
}

/// A nullable timestamp column against its decoded form.
pub open spec fn instant_col_matches(v: Option<Value>, t: Option<Instant>) -> bool {
    match v {
        Some(Value::Null) => t is None,
        Some(Value::BigInt(n)) => t == Some(Instant { secs: n }),
        _ => false,
    }
}

/// Whether a nullable timestamp column decodes at all.
pub open spec fn instant_col_ok(v: Option<Value>) -> bool {
    match v {
        Some(Value::Null) => true,
        Some(Value::BigInt(_)) => true,
        _ => false,
    }
}

/// A work item in the durable queue.
#[derive(Clone, Debug)]
pub struct Task {
    pub id: i64,
    pub kind: TaskKind,
    pub config: JSON,
    pub status: TaskStatus,
    pub state: JSON,
    pub expire_time: Option<Instant>,
}

/// A task whose kind or status decoded to `Unknown` is rejected by writers
/// and skipped by readers.
pub open spec fn task_is_valid(t: Task) -> bool {
    !(t.kind is Unknown) && !(t.status is Unknown)
}

/// The task table's columns, in declaration order.
pub open spec fn task_columns_spec() -> Seq<Seq<char>> {
    seq!["id"@, "kind"@, "config"@, "status"@, "state"@, "expire_time"@]
}

/// The values of a task's row, in column order.
pub open spec fn task_row_values(t: Task) -> Seq<Value> {
    seq![
        Value::BigInt(t.id),
        Value::BigInt(crate::models::task_kind_code(t.kind) as i64),
        Value::Text(t.config.text),
        Value::BigInt(crate::models::task_status_code(t.status) as i64),
        Value::Text(t.state.text),
        crate::objects::opt_instant_value(t.expire_time),
    ]
}

/// The value of a nullable timestamp column.
pub open spec fn opt_instant_value(o: Option<Instant>) -> Value {
    match o {
        Some(i) => Value::BigInt(i.secs),
        None => Value::Null,
    }
}

/// The zero task: every column at its default, ready to carry only an
/// id in a deletion event.
pub open spec fn is_zero_task_row(vs: Seq<Value>, id: i64) -> bool {
    &&& vs.len() == 6
    &&& vs[0] == Value::BigInt(id)
    &&& vs[1] == Value::BigInt(1)
    &&& (vs[2] matches Value::Text(t) && t@ == "null"@)
    &&& vs[3] == Value::BigInt(0)
    &&& (vs[4] matches Value::Text(t) && t@ == "null"@)
    &&& vs[5] is Null
}

/// Tasks equal up to string views produce row values equal up to string
/// views.
pub proof fn lemma_task_like_values(a: Task, b: Task)
    requires
        task_like(a, b),
    ensures
        crate::value::values_like(task_row_values(a), task_row_values(b)),
{
    let va = task_row_values(a);
    let vb = task_row_values(b);
    assert forall|i: int| 0 <= i < va.len() implies crate::value::value_eq(&va[i], &vb[i]) by {
        if i == 0 {
        } else if i == 1 {
        } else if i == 2 {
        } else if i == 3 {
        } else if i == 4 {
        } else {
        }
    }
}

/// Every file column name is quotable.
pub proof fn lemma_file_columns_valid()
    ensures
        crate::statement::all_valid(file_columns_spec()),
{
    reveal_strlit("id");
    reveal_strlit("status");
    reveal_strlit("expire_time");
    reveal_strlit("path");
    reveal_strlit("meta");
    assert forall|i: int|
        0 <= i < file_columns_spec().len() implies crate::text::valid_name(
        #[trigger] file_columns_spec()[i],
    ) by {
        if i == 0 {
            assert(file_columns_spec()[0] == "id"@);
        }
    }
}

/// Every task column name is quotable.
pub proof fn lemma_task_columns_valid()
    ensures
        crate::statement::all_valid(task_columns_spec()),
{
    reveal_strlit("id");
    reveal_strlit("kind");
    reveal_strlit("config");
    reveal_strlit("status");
    reveal_strlit("state");
    reveal_strlit("expire_time");
    assert forall|i: int|
        0 <= i < task_columns_spec().len() implies crate::text::valid_name(
        #[trigger] task_columns_spec()[i],
    ) by {
        if i == 0 {
            assert(task_columns_spec()[0] == "id"@);
        } else if i == 1 {
        } else if i == 2 {
        } else if i == 3 {
        } else if i == 4 {
        } else {
        }
    }
}

/// Two tasks agree up to string views: their scalar fields are equal
/// and their JSON columns hold the same characters.
pub open spec fn task_like(a: Task, b: Task) -> bool {
    &&& a.id == b.id
    &&& a.kind == b.kind
    &&& a.config.text@ == b.config.text@
    &&& a.status == b.status
    &&& a.state.text@ == b.state.text@
    &&& a.expire_time == b.expire_time
}

/// A fetched row decodes to the task `t`.
pub open spec fn task_matches_row(t: Task, row: &Row) -> bool {
    &&& row.spec_col("id"@) == Some(Value::BigInt(t.id))
    &&& match row.spec_col("kind"@) {
        Some(Value::BigInt(n)) => task_kind_decode(n as int) == Some(t.kind),
        _ => false,
    }
    &&& json_col_matches(row.spec_col("config"@), t.config)
    &&& match row.spec_col("status"@) {
        Some(Value::BigInt(n)) => task_status_decode(n as int) == t.status,
        _ => false,
    }
    &&& json_col_matches(row.spec_col("state"@), t.state)
    &&& instant_col_matches(row.spec_col("expire_time"@), t.expire_time)
}

/// A fetched row decodes to some task.
pub open spec fn task_row_decodes(row: &Row) -> bool {
    &&& row.spec_col("id"@) matches Some(Value::BigInt(_))
    &&& match row.spec_col("kind"@) {
        Some(Value::BigInt(n)) => task_kind_decode(n as int) is Some,
        _ => false,
    }
    &&& json_col_ok(row.spec_col("config"@))
    &&& row.spec_col("status"@) matches Some(Value::BigInt(_))
    &&& json_col_ok(row.spec_col("state"@))
    &&& instant_col_ok(row.spec_col("expire_time"@))
}

impl Task {
    /// Queued tasks with valid kind and status are accepted by the store.
    pub fn is_valid(&self) -> (r: bool)
        ensures
            r == task_is_valid(*self),
    {
        !matches!(self.kind, TaskKind::Unknown(_)) && !matches!(
            self.status,
            TaskStatus::Unknown(_),
        )
    }

    /// The task table's columns.
    pub fn columns() -> (r: Vec<String>)
        ensures
            crate::statement::views_of(r@) =~= task_columns_spec(),
    {
        let mut r: Vec<String> = Vec::new();
        r.push("id".to_owned());
        r.push("kind".to_owned());
        r.push("config".to_owned());
        r.push("status".to_owned());
        r.push("state".to_owned());
        r.push("expire_time".to_owned());
        proof {
            assert(crate::statement::views_of(r@) =~= task_columns_spec());
        }
        r
    }

    /// Encodes the task as a row of `(column, value)` pairs.
    pub fn into_row(self) -> (r: Vec<(String, Value)>)
        ensures
            row_names(r@) =~= task_columns_spec(),
            row_values(r@) =~= task_row_values(self),
    {
        let mut r: Vec<(String, Value)> = Vec::new();
        r.push(("id".to_owned(), Value::BigInt(self.id)));
        r.push(("kind".to_owned(), self.kind.into_value()));
        r.push(("config".to_owned(), self.config.into_value()));
        r.push(("status".to_owned(), self.status.into_value()));
        r.push(("state".to_owned(), self.state.into_value()));
        r.push(("expire_time".to_owned(), Instant::opt_into_value(self.expire_time)));
        proof {
            assert(row_names(r@) =~= task_columns_spec());
            assert(row_values(r@) =~= task_row_values(self));
        }
        r
    }

    /// The zero task with only the id set: what a deletion event carries
    /// as its object.
    pub fn zero(id: i64) -> (r: Task)
        ensures
            r.id == id,
            r.kind == TaskKind::JudgeSolution,
            r.status == TaskStatus::Queued,
            r.expire_time is None,
            r.config.text@ == "null"@,
            r.state.text@ == "null"@,
            is_zero_task_row(task_row_values(r), id),
    {
        let r = Task {
            id,
            kind: TaskKind::JudgeSolution,
            config: JSON::null(),
            status: TaskStatus::Queued,
            state: JSON::null(),
            expire_time: None,
        };
        proof {
            assert(task_row_values(r)[0] == Value::BigInt(id));
            assert(task_row_values(r)[5] is Null);
        }
        r
    }

    /// An equal copy of the task up to string views: every scalar field
    /// is equal, and the JSON texts hold the same characters.
    pub fn duplicate(&self) -> (r: Task)
        ensures
            task_like(r, *self),
    {
        let config = JSON { text: self.config.text.clone() };
        let state = JSON { text: self.state.text.clone() };
        proof {
            assert(config.text@ == self.config.text@);
            assert(state.text@ == self.state.text@);
        }
        Task {
            id: self.id,
            kind: self.kind,
            config,
            status: self.status,
            state,
            expire_time: self.expire_time,
        }
    }

    /// Decodes a fetched row; fails when a column is missing or does not
    /// decode.
    pub fn from_row(row: &Row) -> (r: Result<Task, Error>)
        ensures
            match r {
                Ok(t) => task_matches_row(t, row),
                Err(_) => !task_row_decodes(row),
            },
    {
        let id = match row.get_parsed("id") {
            Ok(v) => match v.to_i64() {
                Ok(n) => n,
                Err(e) => {
                    return Err(e);
                },
            },
            Err(e) => {
                return Err(e);
            },
        };
        let kind = match row.get_parsed("kind") {
            Ok(v) => match TaskKind::from_value(v) {
                Ok(k) => k,
                Err(e) => {
                    return Err(e);
                },
            },
            Err(e) => {
                return Err(e);
            },
        };
        let config = match row.get_parsed("config") {
            Ok(v) => match JSON::from_value(v) {
                Ok(j) => j,
                Err(e) => {
                    return Err(e);
                },
            },
            Err(e) => {
                return Err(e);
            },
        };
        let status = match row.get_parsed("status") {
            Ok(v) => match TaskStatus::from_value(v) {
                Ok(s) => s,
                Err(e) => {
                    return Err(e);
                },
            },
            Err(e) => {
                return Err(e);
            },
        };
        let state = match row.get_parsed("state") {
            Ok(v) => match JSON::from_value(v) {
                Ok(j) => j,
                Err(e) => {
                    return Err(e);
                },
            },
            Err(e) => {
                return Err(e);
            },
        };
        let expire_time = match row.get_parsed("expire_time") {
            Ok(v) => match Instant::opt_from_value(v) {
                Ok(t) => t,
                Err(e) => {
                    return Err(e);
                },
            },
            Err(e) => {
                return Err(e);
            },
        };
        Ok(Task { id, kind, config, status, state, expire_time })
    }
}

/// A content-addressed blob's database row.
#[derive(Clone, Debug)]
pub struct File {
    pub id: i64,
    pub status: FileStatus,
    pub expire_time: Option<Instant>,
    pub path: String,
    pub meta: JSON,
}

pub open spec fn file_is_valid(f: File) -> bool {
    !(f.status is Unknown)
}

pub open spec fn file_columns_spec() -> Seq<Seq<char>> {
    seq!["id"@, "status"@, "expire_time"@, "path"@, "meta"@]
}

pub open spec fn file_row_values(f: File) -> Seq<Value> {
    seq![
        Value::BigInt(f.id),
        Value::BigInt(crate::models::file_status_code(f.status) as i64),
        opt_instant_value(f.expire_time),
        Value::Text(f.path),
        Value::Text(f.meta.text),
    ]
}

pub open spec fn file_matches_row(f: File, row: &Row) -> bool {
    &&& row.spec_col("id"@) == Some(Value::BigInt(f.id))
    &&& match row.spec_col("status"@) {
        Some(Value::BigInt(n)) => file_status_decode(n as int) == Some(f.status),
        _ => false,
    }
    &&& instant_col_matches(row.spec_col("expire_time"@), f.expire_time)
    &&& match row.spec_col("path"@) {
        Some(Value::Text(s)) => f.path@ == s@,
        _ => false,
    }
    &&& json_col_matches(row.spec_col("meta"@), f.meta)
}

pub open spec fn file_row_decodes(row: &Row) -> bool {
    &&& row.spec_col("id"@) matches Some(Value::BigInt(_))
    &&& match row.spec_col("status"@) {
        Some(Value::BigInt(n)) => file_status_decode(n as int) is Some,
        _ => false,
    }
    &&& instant_col_ok(row.spec_col("expire_time"@))
    &&& row.spec_col("path"@) matches Some(Value::Text(_))
    &&& json_col_ok(row.spec_col("meta"@))
}

/// Files equal up to string views: scalar fields equal, path and JSON
/// texts holding the same characters.
pub open spec fn file_like(a: File, b: File) -> bool {
    &&& a.id == b.id
    &&& a.status == b.status
    &&& a.expire_time == b.expire_time
    &&& a.path@ == b.path@
    &&& a.meta.text@ == b.meta.text@
}

/// Files equal up to string views produce row values equal up to string
/// views.
pub proof fn lemma_file_like_values(a: File, b: File)
    requires
        file_like(a, b),
    ensures
        crate::value::values_like(file_row_values(a), file_row_values(b)),
{
    let va = file_row_values(a);
    let vb = file_row_values(b);
    assert forall|i: int| 0 <= i < va.len() implies crate::value::value_eq(&va[i], &vb[i]) by {
        if i == 0 {
        } else if i == 1 {
        } else if i == 2 {
        } else if i == 3 {
        } else {
        }
    }
}

/// The zero file: every column at its default, ready to carry only an
/// id in a deletion event.
pub open spec fn is_zero_file_row(vs: Seq<Value>, id: i64) -> bool {
    &&& vs.len() == 5
    &&& vs[0] == Value::BigInt(id)
    &&& vs[1] == Value::BigInt(0)
    &&& vs[2] is Null
    &&& (vs[3] matches Value::Text(t) && t@ == Seq::<char>::empty())
    &&& (vs[4] matches Value::Text(t) && t@ == "null"@)
}

impl File {
    /// The zero file with only the id set: what a deletion event carries
    /// as its object.
    pub fn zero(id: i64) -> (r: File)
        ensures
            r.id == id,
            r.status == FileStatus::Pending,
            r.expire_time is None,
            r.path@ == Seq::<char>::empty(),
            r.meta.text@ == "null"@,
            is_zero_file_row(file_row_values(r), id),
    {
        let r = File {
            id,
            status: FileStatus::Pending,
            expire_time: None,
            path: String::new(),
            meta: JSON::null(),
        };
        proof {
            assert(file_row_values(r)[0] == Value::BigInt(id));
            assert(file_row_values(r)[2] is Null);
        }
        r
    }

    /// An equal copy of the file up to string views.
    pub fn duplicate(&self) -> (r: File)
        ensures
            file_like(r, *self),
    {
        let path = self.path.clone();
        let meta = JSON { text: self.meta.text.clone() };
        proof {
            assert(path@ == self.path@);
            assert(meta.text@ == self.meta.text@);
        }
        File {
            id: self.id,
            status: self.status,
            expire_time: self.expire_time,
            path,
            meta,
        }
    }

    pub fn is_valid(&self) -> (r: bool)
        ensures
            r == file_is_valid(*self),
    {
        !matches!(self.status, FileStatus::Unknown(_))
    }

    pub fn columns() -> (r: Vec<String>)
        ensures
            crate::statement::views_of(r@) =~= file_columns_spec(),
    {
        let mut r: Vec<String> = Vec::new();
        r.push("id".to_owned());
        r.push("status".to_owned());
        r.push("expire_time".to_owned());
        r.push("path".to_owned());
        r.push("meta".to_owned());
        proof {
            assert(crate::statement::views_of(r@) =~= file_columns_spec());
        }
        r
    }

    pub fn into_row(self) -> (r: Vec<(String, Value)>)
        ensures
            row_names(r@) =~= file_columns_spec(),
            row_values(r@) =~= file_row_values(self),
    {
        let mut r: Vec<(String, Value)> = Vec::new();
        r.push(("id".to_owned(), Value::BigInt(self.id)));
        r.push(("status".to_owned(), self.status.into_value()));
        r.push(("expire_time".to_owned(), Instant::opt_into_value(self.expire_time)));
        r.push(("path".to_owned(), Value::Text(self.path)));
        r.push(("meta".to_owned(), self.meta.into_value()));
        proof {
            assert(row_names(r@) =~= file_columns_spec());
            assert(row_values(r@) =~= file_row_values(self));
        }
        r
    }

    pub fn from_row(row: &Row) -> (r: Result<File, Error>)
        ensures
            match r {
                Ok(f) => file_matches_row(f, row),
                Err(_) => !file_row_decodes(row),
            },
    {
        let id = match row.get_parsed("id") {
            Ok(v) => match v.to_i64() {
                Ok(n) => n,
                Err(e) => {
                    return Err(e);
                },
            },
            Err(e) => {
                return Err(e);
            },
        };
        let status = match row.get_parsed("status") {
            Ok(v) => match FileStatus::from_value(v) {
                Ok(s) => s,
                Err(e) => {
                    return Err(e);
                },
            },
            Err(e) => {
                return Err(e);
            },
        };
        let expire_time = match row.get_parsed("expire_time") {
            Ok(v) => match Instant::opt_from_value(v) {
                Ok(t) => t,
                Err(e) => {
                    return Err(e);
                },
            },
            Err(e) => {
                return Err(e);
            },
        };
        let path = match row.get_parsed("path") {
            Ok(v) => match v.to_text() {
                Ok(s) => s,
                Err(e) => {
                    return Err(e);
                },
            },
            Err(e) => {
                return Err(e);
            },
        };
        let meta = match row.get_parsed("meta") {
            Ok(v) => match JSON::from_value(v) {
                Ok(j) => j,
                Err(e) => {
                    return Err(e);
                },
            },
            Err(e) => {
                return Err(e);
            },
        };
        Ok(File { id, status, expire_time, path, meta })
    }
}

/// An account row.
#[derive(Clone, Copy, Debug)]
pub struct Account {
    pub id: i64,
    pub kind: AccountKind,
}

pub open spec fn account_is_valid(a: Account) -> bool {
    !(a.kind is Unknown)
}

pub open spec fn account_columns_spec() -> Seq<Seq<char>> {
    seq!["id"@, "kind"@]
}

pub open spec fn account_row_values(a: Account) -> Seq<Value> {
    seq![Value::BigInt(a.id), Value::BigInt(crate::models::account_kind_code(a.kind) as i64)]
}

pub open spec fn account_matches_row(a: Account, row: &Row) -> bool {
    &&& row.spec_col("id"@) == Some(Value::BigInt(a.id))
    &&& match row.spec_col("kind"@) {
        Some(Value::BigInt(n)) => account_kind_decode(n as int) == Some(a.kind),
        _ => false,
    }
}

pub open spec fn account_row_decodes(row: &Row) -> bool {
    &&& row.spec_col("id"@) matches Some(Value::BigInt(_))
    &&& match row.spec_col("kind"@) {
        Some(Value::BigInt(n)) => account_kind_decode(n as int) is Some,
        _ => false,
    }
}

impl Account {
    pub fn is_valid(&self) -> (r: bool)
        ensures
            r == account_is_valid(*self),
    {
        !matches!(self.kind, AccountKind::Unknown(_))
    }

    pub fn columns() -> (r: Vec<String>)
        ensures
            crate::statement::views_of(r@) =~= account_columns_spec(),
    {
        let mut r: Vec<String> = Vec::new();
        r.push("id".to_owned());
        r.push("kind".to_owned());
        proof {
            assert(crate::statement::views_of(r@) =~= account_columns_spec());
        }
        r
    }

    pub fn into_row(self) -> (r: Vec<(String, Value)>)
        ensures
            row_names(r@) =~= account_columns_spec(),
            row_values(r@) =~= account_row_values(self),
    {
        let mut r: Vec<(String, Value)> = Vec::new();
        r.push(("id".to_owned(), Value::BigInt(self.id)));
        r.push(("kind".to_owned(), self.kind.into_value()));
        proof {
            assert(row_names(r@) =~= account_columns_spec());
            assert(row_values(r@) =~= account_row_values(self));
        }
        r
    }

    pub fn from_row(row: &Row) -> (r: Result<Account, Error>)
        ensures
            match r {
                Ok(a) => account_matches_row(a, row),
                Err(_) => !account_row_decodes(row),
            },
    {
        let id = match row.get_parsed("id") {
            Ok(v) => match v.to_i64() {
                Ok(n) => n,
                Err(e) => {
                    return Err(e);
                },
            },
            Err(e) => {
                return Err(e);
            },
        };
        let kind = match row.get_parsed("kind") {
            Ok(v) => match AccountKind::from_value(v) {
                Ok(k) => k,
                Err(e) => {
                    return Err(e);
                },
            },
            Err(e) => {
                return Err(e);
            },
        };
        Ok(Account { id, kind })
    }
}

/// A problem row.
#[derive(Clone, Copy, Debug)]
pub struct Problem {
    pub id: i64,
}

pub open spec fn problem_columns_spec() -> Seq<Seq<char>> {
    seq!["id"@]
}

pub open spec fn problem_row_values(p: Problem) -> Seq<Value> {
    seq![Value::BigInt(p.id)]
}

pub open spec fn problem_matches_row(p: Problem, row: &Row) -> bool {
    row.spec_col("id"@) == Some(Value::BigInt(p.id))
}

pub open spec fn problem_row_decodes(row: &Row) -> bool {
    row.spec_col("id"@) matches Some(Value::BigInt(_))
}

impl Problem {
    pub fn is_valid(&self) -> (r: bool)
        ensures
            r == true,
    {
        true
    }

    pub fn columns() -> (r: Vec<String>)
        ensures
            crate::statement::views_of(r@) =~= problem_columns_spec(),
    {
        let mut r: Vec<String> = Vec::new();
        r.push("id".to_owned());
        proof {
            assert(crate::statement::views_of(r@) =~= problem_columns_spec());
        }
        r
    }

    pub fn into_row(self) -> (r: Vec<(String, Value)>)
        ensures
            row_names(r@) =~= problem_columns_spec(),
            row_values(r@) =~= problem_row_values(self),
    {
        let mut r: Vec<(String, Value)> = Vec::new();
        r.push(("id".to_owned(), Value::BigInt(self.id)));
        proof {
            assert(row_names(r@) =~= problem_columns_spec());
            assert(row_values(r@) =~= problem_row_values(self));
        }
        r
    }

    pub fn from_row(row: &Row) -> (r: Result<Problem, Error>)
        ensures
            match r {
                Ok(p) => problem_matches_row(p, row),
                Err(_) => !problem_row_decodes(row),
            },
    {
        let id = match row.get_parsed("id") {
            Ok(v) => match v.to_i64() {
                Ok(n) => n,
                Err(e) => {
                    return Err(e);
                },
            },
            Err(e) => {
                return Err(e);
            },
        };
        Ok(Problem { id })
    }
}

/// A solution row.
#[derive(Clone, Debug)]
pub struct Solution {
    pub id: i64,
    pub kind: SolutionKind,
    pub problem_id: i64,
    pub compiler_id: i64,
    pub author_id: i64,
    pub report: JSON,
    pub create_time: Instant,
    pub content: Option<String>,
    pub content_id: Option<i64>,
}

pub open spec fn solution_is_valid(s: Solution) -> bool {
    !(s.kind is Unknown)
}

pub open spec fn solution_columns_spec() -> Seq<Seq<char>> {
    seq![
        "id"@,
        "kind"@,
        "problem_id"@,
        "compiler_id"@,
        "author_id"@,
        "report"@,
        "create_time"@,
        "content"@,
        "content_id"@,
    ]
}

/// The value of a nullable text column.
pub open spec fn opt_text_value(o: Option<String>) -> Value {
    match o {
        Some(s) => Value::Text(s),
        None => Value::Null,
    }
}

/// The value of a nullable integer column.
pub open spec fn opt_i64_value(o: Option<i64>) -> Value {
    match o {
        Some(n) => Value::BigInt(n),
        None => Value::Null,
    }
}

pub open spec fn solution_row_values(s: Solution) -> Seq<Value> {
    seq![
        Value::BigInt(s.id),
        Value::BigInt(crate::models::solution_kind_code(s.kind) as i64),
        Value::BigInt(s.problem_id),
        Value::BigInt(s.compiler_id),
        Value::BigInt(s.author_id),
        Value::Text(s.report.text),
        Value::BigInt(s.create_time.secs),
        opt_text_value(s.content),
        opt_i64_value(s.content_id),
    ]
}

pub open spec fn solution_matches_row(s: Solution, row: &Row) -> bool {
    &&& row.spec_col("id"@) == Some(Value::BigInt(s.id))
    &&& match row.spec_col("kind"@) {
        Some(Value::BigInt(n)) => solution_kind_decode(n as int) == Some(s.kind),
        _ => false,
    }
    &&& row.spec_col("problem_id"@) == Some(Value::BigInt(s.problem_id))
    &&& row.spec_col("compiler_id"@) == Some(Value::BigInt(s.compiler_id))
    &&& row.spec_col("author_id"@) == Some(Value::BigInt(s.author_id))
    &&& json_col_matches(row.spec_col("report"@), s.report)
    &&& row.spec_col("create_time"@) == Some(Value::BigInt(s.create_time.secs))
    &&& match row.spec_col("content"@) {
        Some(Value::Null) => s.content is None,
        Some(Value::Text(t)) => (s.content matches Some(c) && c@ == t@),
        _ => false,
    }
    &&& match row.spec_col("content_id"@) {
        Some(Value::Null) => s.content_id is None,
        Some(Value::BigInt(n)) => s.content_id == Some(n),
        _ => false,
    }
}

pub open spec fn solution_row_decodes(row: &Row) -> bool {
    &&& row.spec_col("id"@) matches Some(Value::BigInt(_))
    &&& match row.spec_col("kind"@) {
        Some(Value::BigInt(n)) => solution_kind_decode(n as int) is Some,
        _ => false,
    }
    &&& row.spec_col("problem_id"@) matches Some(Value::BigInt(_))
    &&& row.spec_col("compiler_id"@) matches Some(Value::BigInt(_))
    &&& row.spec_col("author_id"@) matches Some(Value::BigInt(_))
    &&& json_col_ok(row.spec_col("report"@))
    &&& row.spec_col("create_time"@) matches Some(Value::BigInt(_))
    &&& match row.spec_col("content"@) {
        Some(Value::Null) => true,
        Some(Value::Text(_)) => true,
        _ => false,
    }
    &&& match row.spec_col("content_id"@) {
        Some(Value::Null) => true,
        Some(Value::BigInt(_)) => true,
        _ => false,
    }
}

impl Solution {
    pub fn is_valid(&self) -> (r: bool)
        ensures
            r == solution_is_valid(*self),
    {
        !matches!(self.kind, SolutionKind::Unknown(_))
    }

    pub fn columns() -> (r: Vec<String>)
        ensures
            crate::statement::views_of(r@) =~= solution_columns_spec(),
    {
        let mut r: Vec<String> = Vec::new();
        r.push("id".to_owned());
        r.push("kind".to_owned());
        r.push("problem_id".to_owned());
        r.push("compiler_id".to_owned());
        r.push("author_id".to_owned());
        r.push("report".to_owned());
        r.push("create_time".to_owned());
        r.push("content".to_owned());
        r.push("content_id".to_owned());
        proof {
            assert(crate::statement::views_of(r@) =~= solution_columns_spec());
        }
        r
    }

    pub fn into_row(self) -> (r: Vec<(String, Value)>)
        ensures
            row_names(r@) =~= solution_columns_spec(),
            row_values(r@) =~= solution_row_values(self),
    {
        let mut r: Vec<(String, Value)> = Vec::new();
        r.push(("id".to_owned(), Value::BigInt(self.id)));
        r.push(("kind".to_owned(), self.kind.into_value()));
        r.push(("problem_id".to_owned(), Value::BigInt(self.problem_id)));
        r.push(("compiler_id".to_owned(), Value::BigInt(self.compiler_id)));
        r.push(("author_id".to_owned(), Value::BigInt(self.author_id)));
        r.push(("report".to_owned(), self.report.into_value()));
        r.push(("create_time".to_owned(), self.create_time.into_value()));
        let content_value = match self.content {
            Some(s) => Value::Text(s),
            None => Value::Null,
        };
        r.push(("content".to_owned(), content_value));
        r.push(("content_id".to_owned(), Value::of_opt_i64(self.content_id)));
        proof {
            assert(row_names(r@) =~= solution_columns_spec());
            assert(row_values(r@) =~= solution_row_values(self));
        }
        r
    }

    pub fn from_row(row: &Row) -> (r: Result<Solution, Error>)
        ensures
            match r {
                Ok(s) => solution_matches_row(s, row),
                Err(_) => !solution_row_decodes(row),
            },
    {
        let id = match row.get_parsed("id") {
            Ok(v) => match v.to_i64() {
                Ok(n) => n,
                Err(e) => {
                    return Err(e);
                },
            },
            Err(e) => {
                return Err(e);
            },
        };
        let kind = match row.get_parsed("kind") {
            Ok(v) => match SolutionKind::from_value(v) {
                Ok(k) => k,
                Err(e) => {
                    return Err(e);
                },
            },
            Err(e) => {
                return Err(e);
            },
        };
        let problem_id = match row.get_parsed("problem_id") {
            Ok(v) => match v.to_i64() {
                Ok(n) => n,
                Err(e) => {
                    return Err(e);
                },
            },
            Err(e) => {
                return Err(e);
            },
        };
        let compiler_id = match row.get_parsed("compiler_id") {
            Ok(v) => match v.to_i64() {
                Ok(n) => n,
                Err(e) => {
                    return Err(e);
                },
            },
            Err(e) => {
                return Err(e);
            },
        };
        let author_id = match row.get_parsed("author_id") {
            Ok(v) => match v.to_i64() {
                Ok(n) => n,
                Err(e) => {
                    return Err(e);
                },
            },
            Err(e) => {
                return Err(e);
            },
        };
        let report = match row.get_parsed("report") {
            Ok(v) => match JSON::from_value(v) {
                Ok(j) => j,
                Err(e) => {
                    return Err(e);
                },
            },
            Err(e) => {
                return Err(e);
            },
        };
        let create_time = match row.get_parsed("create_time") {
            Ok(v) => match Instant::from_value(v) {
                Ok(t) => t,
                Err(e) => {
                    return Err(e);
                },
            },
            Err(e) => {
                return Err(e);
            },
        };
        let content = match row.get_parsed("content") {
            Ok(v) => match v.to_opt_text() {
                Ok(t) => t,
                Err(e) => {
                    return Err(e);
                },
            },
            Err(e) => {
                return Err(e);
            },
        };
        let content_id = match row.get_parsed("content_id") {
            Ok(v) => match v.to_opt_i64() {
                Ok(t) => t,
                Err(e) => {
                    return Err(e);
                },
            },
            Err(e) => {
                return Err(e);
            },
        };
        Ok(
            Solution {
                id,
                kind,
                problem_id,
                compiler_id,
                author_id,
                report,
                create_time,
                content,
                content_id,
            },
        )
    }
}

/// The typed configuration of a judge-solution task.
#[derive(Clone, Copy, Debug, PartialEq, Eq, Structural)]
pub struct JudgeSolutionTaskConfig {
    pub solution_id: i64,
    pub enable_points: bool,
}

/// The typed configuration of an update-problem-package task.
#[derive(Clone, Copy, Debug, PartialEq, Eq, Structural)]
pub struct UpdateProblemPackageTaskConfig {
    pub problem_id: i64,
    pub file_id: i64,
    pub compile: bool,
}

} // verus!
