//! The worker pool's decisions: what one worker does after a claim
//! attempt, the randomised backoff, the handler dispatch, and the
//! terminal status of a finished task.  The loop itself — sleeping,
//! spawning, awaiting — runs outside the library and performs what is
//! decided here.

use vstd::prelude::*;

use crate::error::{Error, ErrorKind};
use crate::models::{TaskKind, TaskStatus};
use crate::objects::Task;
use crate::text::{dec_u64, push_u64_decimal};

verus! {

/// What one worker does after looking at the shutdown flag and a claim
/// attempt.
#[derive(Clone, Copy, Debug, PartialEq, Eq, Structural)]
pub enum WorkerAction {
    /// Shutdown was signalled: leave the loop.
    Exit,
    /// A task was claimed: run its handler.
    Run,
    /// The queue was empty or the claim failed transiently: back off,
    /// then try again.
    Backoff,
}

/// The worker-loop decision: shutdown wins; a claimed task runs; an
/// empty queue and a transient claim error both back off.
pub fn worker_step(shutdown: bool, claim: &Result<Option<Task>, Error>) -> (r: WorkerAction)
    ensures
        r == (if shutdown {
            WorkerAction::Exit
        } else if claim matches Ok(Some(_)) {
            WorkerAction::Run
        } else {
            WorkerAction::Backoff
        }),
{
    if shutdown {
        WorkerAction::Exit
    } else {
        match claim {
            Ok(Some(_)) => WorkerAction::Run,
            _ => WorkerAction::Backoff,
        }
    }
}

/// The randomised backoff before the next claim attempt: uniform over
/// `[800, 1200)` milliseconds, derived from a fresh random draw.
pub fn backoff_delay(r: u16) -> (d: u64)
    ensures
        d == 800 + ((r as int) % 400),
        800 <= d < 1200,
{
    800 + ((r % 400) as u64)
}

/// The handler a task kind dispatches to.
#[derive(Clone, Copy, Debug, PartialEq, Eq, Structural)]
pub enum Handler {
    JudgeSolution,
    UpdateProblemPackage,
}

/// Dispatches a claimed task's kind to its handler; an unknown kind is a
/// `NotFound` failure, and the task is marked failed.
pub fn handler_for(kind: &TaskKind) -> (r: Result<Handler, Error>)
    ensures
        match r {
            Ok(h) => (kind == TaskKind::JudgeSolution && h == Handler::JudgeSolution) || (kind
                == TaskKind::UpdateProblemPackage && h == Handler::UpdateProblemPackage),
            Err(e) => kind is Unknown && e.spec_kind() == ErrorKind::NotFound,
        },
{
    match kind {
        TaskKind::JudgeSolution => Ok(Handler::JudgeSolution),
        TaskKind::UpdateProblemPackage => Ok(Handler::UpdateProblemPackage),
        TaskKind::Unknown(_) => Err(Error::NotFound("Unknown task kind".to_owned())),
    }
}

/// The terminal status a handler outcome maps to: success on `Ok`,
/// failure on `Err`.
pub fn terminal_status(ok: bool) -> (r: TaskStatus)
    ensures
        r == (if ok {
            TaskStatus::Succeeded
        } else {
            TaskStatus::Failed
        }),
{
    if ok {
        TaskStatus::Succeeded
    } else {
        TaskStatus::Failed
    }
}

/// The handler of a package-update task: it carries its parsed
/// configuration; the package pipeline itself runs outside the library.
pub struct UpdateProblemPackageTask {
    pub config: crate::objects::UpdateProblemPackageTaskConfig,
}

impl UpdateProblemPackageTask {
    pub fn new(config: crate::objects::UpdateProblemPackageTaskConfig) -> (r:
        UpdateProblemPackageTask)
        ensures
            r.config == config,
    {
        UpdateProblemPackageTask { config }
    }
}

/// A per-task scratch directory under the worker's temp root.  Creating
/// and removing it happens outside the library.
pub struct TempDir {
    path: String,
}

impl TempDir {
    /// The directory's path.
    pub closed spec fn spec_path(&self) -> Seq<char> {
        self.path@
    }

    /// A scratch directory rooted at the given path.
    pub fn new(path: String) -> (r: TempDir)
        ensures
            r.spec_path() == path@,
    {
        TempDir { path }
    }

    /// A path below the scratch directory.
    pub fn join(&self, name: &str) -> (r: String)
        ensures
            r@ == self.spec_path() + seq!['/'] + name@,
    {
        let mut s = self.path.clone();
        s.push('/');
        s.push_str(name);
        proof {
            assert(s@ =~= self.spec_path() + seq!['/'] + name@);
        }
        s
    }

    /// The scratch directory's own path.
    pub fn as_path(&self) -> (r: &str)
        ensures
            r@ == self.spec_path(),
    {
        self.path.as_str()
    }
}

/// The name of the scratch directory of the `n`-th task: `task-<n>`.
pub fn task_dir_name(n: u64) -> (r: String)
    ensures
        r@ == "task-"@ + dec_u64(n as int),
{
    let mut s = "task-".to_owned();
    push_u64_decimal(&mut s, n);
    s
}

} // verus!
