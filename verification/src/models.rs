//! The persistent data model: timestamps, JSON columns, and the enumerated
//! kinds and statuses stored in object rows.  Every enum decodes unknown
//! codes to an `Unknown` variant so that readers can skip rows written by
//! a newer schema without failing.

use vstd::prelude::*;

use crate::error::{Error, ErrorKind};
use crate::text::string_from_utf8;
use crate::value::Value;

verus! {

/// A point in time, carried as whole seconds since the Unix epoch.
/// Calendar conversion happens outside the library.
#[derive(Clone, Copy, Debug, PartialEq, Eq, Structural)]
pub struct Instant {
    pub secs: i64,
}

impl Instant {
    /// Relies on `chrono::Utc::now`: the current wall-clock time.  Nothing
    /// is promised of the result; callers state what holds for any time.
    #[verifier::external_body]
    pub fn now() -> Instant {
        Instant { secs: chrono::Utc::now().timestamp() }
    }

    /// The instant `d` seconds later.
    pub fn plus_secs(self, d: i64) -> (r: Instant)
        requires
            self.secs + d <= i64::MAX,
            self.secs + d >= i64::MIN,
        ensures
            r.secs == self.secs + d,
    {
        Instant { secs: self.secs + d }
    }

    /// Strictly-before comparison.
    pub fn before(self, other: Instant) -> (r: bool)
        ensures
            r == (self.secs < other.secs),
    {
        self.secs < other.secs
    }

    pub fn into_value(self) -> (r: Value)
        ensures
            r == Value::BigInt(self.secs),
    {
        Value::BigInt(self.secs)
    }

    pub fn from_value(v: &Value) -> (r: Result<Instant, Error>)
        ensures
            match r {
                Ok(t) => v == Value::BigInt(t.secs),
                Err(e) => !(v is BigInt) && e.spec_kind() == ErrorKind::ValueParse,
            },
    {
        match v.to_i64() {
            Ok(secs) => Ok(Instant { secs }),
            Err(e) => Err(e),
        }
    }

    /// Decodes a nullable timestamp column.
    pub fn opt_from_value(v: &Value) -> (r: Result<Option<Instant>, Error>)
        ensures
            match r {
                Ok(t) => match t {
                    Some(i) => v == Value::BigInt(i.secs),
                    None => v is Null,
                },
                Err(e) => !(v is BigInt) && !(v is Null) && e.spec_kind()
                    == ErrorKind::ValueParse,
            },
    {
        match v.to_opt_i64() {
            Ok(Some(secs)) => Ok(Some(Instant { secs })),
            Ok(None) => Ok(None),
            Err(e) => Err(e),
        }
    }

    /// Encodes a nullable timestamp column.
    pub fn opt_into_value(v: Option<Instant>) -> (r: Value)
        ensures
            match v {
                Some(i) => r == Value::BigInt(i.secs),
                None => r is Null,
            },
    {
        match v {
            Some(i) => Value::BigInt(i.secs),
            None => Value::Null,
        }
    }
}

/// The current wall-clock time; see [`Instant::now`].
pub fn now() -> Instant {
    Instant::now()
}

/// A JSON column, carried as its serialised text.  The library moves the
/// text through rows unchanged; parsing into typed records happens at the
/// unverified edge.
#[derive(Clone, Debug)]
pub struct JSON {
    pub text: String,
}

impl JSON {
    /// An empty JSON document: the literal `null`.
    pub fn null() -> (r: JSON)
        ensures
            r.text@ == "null"@,
    {
        JSON { text: "null".to_owned() }
    }

    pub fn into_value(self) -> (r: Value)
        ensures
            r == Value::Text(self.text),
    {
        Value::Text(self.text)
    }

    /// Decodes a JSON column from text, or from bytes when they are valid
    /// UTF-8.
    pub fn from_value(v: &Value) -> (r: Result<JSON, Error>)
        ensures
            match r {
                Ok(j) => match v {
                    Value::Text(t) => j.text@ == t@,
                    Value::Blob(b) => vstd::utf8::valid_utf8(b@) && j.text@
                        == vstd::utf8::decode_utf8(b@),
                    _ => false,
                },
                Err(e) => e.spec_kind() == ErrorKind::ValueParse && match v {
                    Value::Text(_) => false,
                    Value::Blob(b) => !vstd::utf8::valid_utf8(b@),
                    _ => true,
                },
            },
    {
        match v {
            Value::Text(t) => Ok(JSON { text: t.clone() }),
            Value::Blob(b) => {
                let bytes = b.clone();
                match string_from_utf8(bytes) {
                    Some(text) => Ok(JSON { text }),
                    None => Err(Error::ValueParse("cannot parse json".to_owned())),
                }
            },
            _ => Err(Error::ValueParse("cannot parse json".to_owned())),
        }
    }
}

/// What happened to an object: every mutation appends one event row.
#[derive(Clone, Copy, Debug, PartialEq, Eq, Structural)]
pub enum EventKind {
    Create,
    Delete,
    Update,
    Unknown(i8),
}

/// The persisted code of an event kind.
pub open spec fn event_kind_code(k: EventKind) -> int {
    match k {
        EventKind::Create => 1,
        EventKind::Delete => 2,
        EventKind::Update => 3,
        EventKind::Unknown(v) => v as int,
    }
}

/// The event kind a persisted code decodes to; codes outside the stored
/// width are refused.
pub open spec fn event_kind_decode(n: int) -> Option<EventKind> {
    if n == 1 {
        Some(EventKind::Create)
    } else if n == 2 {
        Some(EventKind::Delete)
    } else if n == 3 {
        Some(EventKind::Update)
    } else if i8::MIN <= n <= i8::MAX {
        Some(EventKind::Unknown(n as i8))
    } else {
        None
    }
}

impl EventKind {
    pub fn into_value(self) -> (r: Value)
        ensures
            r == Value::BigInt((event_kind_code(self)) as i64),
            r matches Value::BigInt(n) && n == event_kind_code(self),
    {
        match self {
            EventKind::Create => Value::BigInt(1),
            EventKind::Delete => Value::BigInt(2),
            EventKind::Update => Value::BigInt(3),
            EventKind::Unknown(v) => Value::BigInt(v as i64),
        }
    }

    pub fn from_value(v: &Value) -> (r: Result<EventKind, Error>)
        ensures
            match r {
                Ok(k) => (v matches Value::BigInt(n) && event_kind_decode(n as int) == Some(k)),
                Err(e) => e.spec_kind() == ErrorKind::ValueParse && match v {
                    Value::BigInt(n) => event_kind_decode(n as int) is None,
                    _ => true,
                },
            },
    {
        let n = match v.to_i64() {
            Ok(n) => n,
            Err(e) => {
                return Err(e);
            },
        };
        if n == 1 {
            Ok(EventKind::Create)
        } else if n == 2 {
            Ok(EventKind::Delete)
        } else if n == 3 {
            Ok(EventKind::Update)
        } else if i8::MIN as i64 <= n && n <= i8::MAX as i64 {
            Ok(EventKind::Unknown(n as i8))
        } else {
            Err(Error::ValueParse("cannot parse event kind".to_owned()))
        }
    }
}

/// What a task does; unknown kinds are skipped by workers.
#[derive(Clone, Copy, Debug, PartialEq, Eq, Structural)]
pub enum TaskKind {
    JudgeSolution,
    UpdateProblemPackage,
    Unknown(i8),
}

pub open spec fn task_kind_code(k: TaskKind) -> int {
    match k {
        TaskKind::JudgeSolution => 1,
        TaskKind::UpdateProblemPackage => 2,
        TaskKind::Unknown(v) => v as int,
    }
}

pub open spec fn task_kind_decode(n: int) -> Option<TaskKind> {
    if n == 1 {
        Some(TaskKind::JudgeSolution)
    } else if n == 2 {
        Some(TaskKind::UpdateProblemPackage)
    } else if i8::MIN <= n <= i8::MAX {
        Some(TaskKind::Unknown(n as i8))
    } else {
        None
    }
}

impl TaskKind {
    pub fn into_value(self) -> (r: Value)
        ensures
            r == Value::BigInt((task_kind_code(self)) as i64),
            r matches Value::BigInt(n) && n == task_kind_code(self),
    {
        match self {
            TaskKind::JudgeSolution => Value::BigInt(1),
            TaskKind::UpdateProblemPackage => Value::BigInt(2),
            TaskKind::Unknown(v) => Value::BigInt(v as i64),
        }
    }

    pub fn from_value(v: &Value) -> (r: Result<TaskKind, Error>)
        ensures
            match r {
                Ok(k) => (v matches Value::BigInt(n) && task_kind_decode(n as int) == Some(k)),
                Err(e) => e.spec_kind() == ErrorKind::ValueParse && match v {
                    Value::BigInt(n) => task_kind_decode(n as int) is None,
                    _ => true,
                },
            },
    {
        let n = match v.to_i64() {
            Ok(n) => n,
            Err(e) => {
                return Err(e);
            },
        };
        if n == 1 {
            Ok(TaskKind::JudgeSolution)
        } else if n == 2 {
            Ok(TaskKind::UpdateProblemPackage)
        } else if i8::MIN as i64 <= n && n <= i8::MAX as i64 {
            Ok(TaskKind::Unknown(n as i8))
        } else {
            Err(Error::ValueParse("cannot parse task kind".to_owned()))
        }
    }

    /// Whether a worker has a handler for this kind.
    pub fn is_supported(&self) -> (r: bool)
        ensures
            r == !(self is Unknown),
    {
        !matches!(self, TaskKind::Unknown(_))
    }
}

/// Where a task stands in its lifecycle.  The stored width is the full
/// integer column, so every code decodes.
#[derive(Clone, Copy, Debug, PartialEq, Eq, Structural)]
pub enum TaskStatus {
    Queued,
    Running,
    Succeeded,
    Failed,
    Unknown(i64),
}

pub open spec fn task_status_code(s: TaskStatus) -> int {
    match s {
        TaskStatus::Queued => 0,
        TaskStatus::Running => 1,
        TaskStatus::Succeeded => 2,
        TaskStatus::Failed => 3,
        TaskStatus::Unknown(v) => v as int,
    }
}

pub open spec fn task_status_decode(n: int) -> TaskStatus {
    if n == 0 {
        TaskStatus::Queued
    } else if n == 1 {
        TaskStatus::Running
    } else if n == 2 {
        TaskStatus::Succeeded
    } else if n == 3 {
        TaskStatus::Failed
    } else {
        TaskStatus::Unknown(n as i64)
    }
}

impl TaskStatus {
    pub fn into_value(self) -> (r: Value)
        ensures
            r == Value::BigInt((task_status_code(self)) as i64),
            r matches Value::BigInt(n) && n == task_status_code(self),
    {
        match self {
            TaskStatus::Queued => Value::BigInt(0),
            TaskStatus::Running => Value::BigInt(1),
            TaskStatus::Succeeded => Value::BigInt(2),
            TaskStatus::Failed => Value::BigInt(3),
            TaskStatus::Unknown(v) => Value::BigInt(v),
        }
    }

    pub fn from_value(v: &Value) -> (r: Result<TaskStatus, Error>)
        ensures
            match r {
                Ok(s) => (v matches Value::BigInt(n) && task_status_decode(n as int) == s),
                Err(e) => !(v is BigInt) && e.spec_kind() == ErrorKind::ValueParse,
            },
    {
        let n = match v.to_i64() {
            Ok(n) => n,
            Err(e) => {
                return Err(e);
            },
        };
        if n == 0 {
            Ok(TaskStatus::Queued)
        } else if n == 1 {
            Ok(TaskStatus::Running)
        } else if n == 2 {
            Ok(TaskStatus::Succeeded)
        } else if n == 3 {
            Ok(TaskStatus::Failed)
        } else {
            Ok(TaskStatus::Unknown(n))
        }
    }
}

/// Whether an uploaded file is still settling or ready to serve.
#[derive(Clone, Copy, Debug, PartialEq, Eq, Structural)]
pub enum FileStatus {
    Pending,
    Available,
    Unknown(i8),
}

pub open spec fn file_status_code(s: FileStatus) -> int {
    match s {
        FileStatus::Pending => 0,
        FileStatus::Available => 1,
        FileStatus::Unknown(v) => v as int,
    }
}

pub open spec fn file_status_decode(n: int) -> Option<FileStatus> {
    if n == 0 {
        Some(FileStatus::Pending)
    } else if n == 1 {
        Some(FileStatus::Available)
    } else if i8::MIN <= n <= i8::MAX {
        Some(FileStatus::Unknown(n as i8))
    } else {
        None
    }
}

impl FileStatus {
    pub fn into_value(self) -> (r: Value)
        ensures
            r == Value::BigInt((file_status_code(self)) as i64),
            r matches Value::BigInt(n) && n == file_status_code(self),
    {
        match self {
            FileStatus::Pending => Value::BigInt(0),
            FileStatus::Available => Value::BigInt(1),
            FileStatus::Unknown(v) => Value::BigInt(v as i64),
        }
    }

    pub fn from_value(v: &Value) -> (r: Result<FileStatus, Error>)
        ensures
            match r {
                Ok(s) => (v matches Value::BigInt(n) && file_status_decode(n as int) == Some(s)),
                Err(e) => e.spec_kind() == ErrorKind::ValueParse && match v {
                    Value::BigInt(n) => file_status_decode(n as int) is None,
                    _ => true,
                },
            },
    {
        let n = match v.to_i64() {
            Ok(n) => n,
            Err(e) => {
                return Err(e);
            },
        };
        if n == 0 {
            Ok(FileStatus::Pending)
        } else if n == 1 {
            Ok(FileStatus::Available)
        } else if i8::MIN as i64 <= n && n <= i8::MAX as i64 {
            Ok(FileStatus::Unknown(n as i8))
        } else {
            Err(Error::ValueParse("cannot parse file status".to_owned()))
        }
    }
}

/// The kind of an account row.
#[derive(Clone, Copy, Debug, PartialEq, Eq, Structural)]
pub enum AccountKind {
    User,
    ScopeUser,
    Scope,
    Group,
    Unknown(u8),
}

pub open spec fn account_kind_code(k: AccountKind) -> int {
    match k {
        AccountKind::User => 1,
        AccountKind::ScopeUser => 2,
        AccountKind::Scope => 3,
        AccountKind::Group => 4,
        AccountKind::Unknown(v) => v as int,
    }
}

pub open spec fn account_kind_decode(n: int) -> Option<AccountKind> {
    if n == 1 {
        Some(AccountKind::User)
    } else if n == 2 {
        Some(AccountKind::ScopeUser)
    } else if n == 3 {
        Some(AccountKind::Scope)
    } else if n == 4 {
        Some(AccountKind::Group)
    } else if 0 <= n <= u8::MAX {
        Some(AccountKind::Unknown(n as u8))
    } else {
        None
    }
}

impl AccountKind {
    pub fn into_value(self) -> (r: Value)
        ensures
            r == Value::BigInt((account_kind_code(self)) as i64),
            r matches Value::BigInt(n) && n == account_kind_code(self),
    {
        match self {
            AccountKind::User => Value::BigInt(1),
            AccountKind::ScopeUser => Value::BigInt(2),
            AccountKind::Scope => Value::BigInt(3),
            AccountKind::Group => Value::BigInt(4),
            AccountKind::Unknown(v) => Value::BigInt(v as i64),
        }
    }

    pub fn from_value(v: &Value) -> (r: Result<AccountKind, Error>)
        ensures
            match r {
                Ok(k) => (v matches Value::BigInt(n) && account_kind_decode(n as int) == Some(k)),
                Err(e) => e.spec_kind() == ErrorKind::ValueParse && match v {
                    Value::BigInt(n) => account_kind_decode(n as int) is None,
                    _ => true,
                },
            },
    {
        let n = match v.to_i64() {
            Ok(n) => n,
            Err(e) => {
                return Err(e);
            },
        };
        if n == 1 {
            Ok(AccountKind::User)
        } else if n == 2 {
            Ok(AccountKind::ScopeUser)
        } else if n == 3 {
            Ok(AccountKind::Scope)
        } else if n == 4 {
            Ok(AccountKind::Group)
        } else if 0 <= n && n <= u8::MAX as i64 {
            Ok(AccountKind::Unknown(n as u8))
        } else {
            Err(Error::ValueParse("cannot parse account kind".to_owned()))
        }
    }
}

/// The kind of a solution row.
#[derive(Clone, Copy, Debug, PartialEq, Eq, Structural)]
pub enum SolutionKind {
    ContestSolution,
    Unknown(u8),
}

pub open spec fn solution_kind_code(k: SolutionKind) -> int {
    match k {
        SolutionKind::ContestSolution => 1,
        SolutionKind::Unknown(v) => v as int,
    }
}

pub open spec fn solution_kind_decode(n: int) -> Option<SolutionKind> {
    if n == 1 {
        Some(SolutionKind::ContestSolution)
    } else if 0 <= n <= u8::MAX {
        Some(SolutionKind::Unknown(n as u8))
    } else {
        None
    }
}

impl SolutionKind {
    pub fn into_value(self) -> (r: Value)
        ensures
            r == Value::BigInt((solution_kind_code(self)) as i64),
            r matches Value::BigInt(n) && n == solution_kind_code(self),
    {
        match self {
            SolutionKind::ContestSolution => Value::BigInt(1),
            SolutionKind::Unknown(v) => Value::BigInt(v as i64),
        }
    }

    pub fn from_value(v: &Value) -> (r: Result<SolutionKind, Error>)
        ensures
            match r {
                Ok(k) => (v matches Value::BigInt(n) && solution_kind_decode(n as int) == Some(k)),
                Err(e) => e.spec_kind() == ErrorKind::ValueParse && match v {
                    Value::BigInt(n) => solution_kind_decode(n as int) is None,
                    _ => true,
                },
            },
    {
        let n = match v.to_i64() {
            Ok(n) => n,
            Err(e) => {
                return Err(e);
            },
        };
        if n == 1 {
            Ok(SolutionKind::ContestSolution)
        } else if 0 <= n && n <= u8::MAX as i64 {
            Ok(SolutionKind::Unknown(n as u8))
        } else {
            Err(Error::ValueParse("cannot parse solution kind".to_owned()))
        }
    }
}

/// The outcome a judge assigns to a solution.
#[derive(Clone, Copy, Debug, PartialEq, Eq, Structural)]
pub enum Verdict {
    Accepted,
    Rejected,
    CompilationError,
    TimeLimitExceeded,
    MemoryLimitExceeded,
    RuntimeError,
    WrongAnswer,
    PresentationError,
    PartiallyAccepted,
    Failed,
    Unknown(i8),
}

pub open spec fn verdict_code(v: Verdict) -> int {
    match v {
        Verdict::Accepted => 1,
        Verdict::Rejected => 2,
        Verdict::CompilationError => 3,
        Verdict::TimeLimitExceeded => 4,
        Verdict::MemoryLimitExceeded => 5,
        Verdict::RuntimeError => 6,
        Verdict::WrongAnswer => 7,
        Verdict::PresentationError => 8,
        Verdict::PartiallyAccepted => 9,
        Verdict::Failed => 10,
        Verdict::Unknown(n) => n as int,
    }
}

/// The judge's summary of one solution.
#[derive(Clone, Copy, Debug, PartialEq, Eq, Structural)]
pub struct JudgeReport {
    pub verdict: Verdict,
}

} // verus!
