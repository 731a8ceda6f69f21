//! Sandbox supervision: the decisions of the loop that watches an isolated
//! child process, the decoding of its exit status, and the report handed
//! back to the caller.  Time quantities are whole milliseconds.
//!
//! The process control itself (namespaces, mounts, cgroups, signals) runs
//! outside the library; the loop out there feeds every observation through
//! the functions here and performs the returned action.

use vstd::prelude::*;

use crate::error::{Error, ErrorKind};
use crate::text::{dec_u64, push_u64_decimal, str_chars};

verus! {

/// What to run and under which limits.  `time_limit` and
/// `real_time_limit` are milliseconds; `memory_limit` is bytes.
#[derive(Clone, Debug)]
pub struct ProcessConfig {
    pub command: Vec<String>,
    pub environ: Vec<String>,
    pub layers: Vec<String>,
    pub work_dir: String,
    pub time_limit: u64,
    pub real_time_limit: u64,
    pub memory_limit: u64,
}

/// What the supervisor reports after the child is reaped: the exit code
/// (or, by Unix convention, the number of the fatal signal), the peak
/// memory, and the consumed CPU and wall-clock time in milliseconds.
/// CPU time may be zero when the accounting controller is absent.
#[derive(Clone, Copy, Debug, PartialEq, Eq, Structural)]
pub struct Report {
    pub exit_code: i32,
    pub memory: u64,
    pub time: u64,
    pub real_time: u64,
}

/// One observation of the child by a non-blocking wait.
#[derive(Clone, Copy, Debug, PartialEq, Eq, Structural)]
pub enum WaitOutcome {
    StillAlive,
    Exited(i32),
    Signaled(i32),
    Other,
}

/// What the supervision loop does next.
#[derive(Clone, Copy, Debug, PartialEq, Eq, Structural)]
pub enum SuperviseAction {
    /// Send SIGKILL, then reap with a blocking wait.
    Kill,
    /// Sleep briefly and poll again.
    Sleep,
    /// The child is gone; decode the observed status.
    Reap,
}

/// The supervision decision: a child still alive is killed once
/// cancellation is signalled or the wall-clock deadline has passed, and
/// polled again otherwise; any other observation ends the loop.
pub fn supervise_step(outcome: &WaitOutcome, cancelled: bool, now: u64, deadline: u64) -> (r:
    SuperviseAction)
    ensures
        r == (if outcome is StillAlive {
            if cancelled || now > deadline {
                SuperviseAction::Kill
            } else {
                SuperviseAction::Sleep
            }
        } else {
            SuperviseAction::Reap
        }),
{
    match outcome {
        WaitOutcome::StillAlive => {
            if cancelled || now > deadline {
                SuperviseAction::Kill
            } else {
                SuperviseAction::Sleep
            }
        },
        _ => SuperviseAction::Reap,
    }
}

/// Decodes a reaped status: a natural exit yields its code, a fatal
/// signal yields the signal number; anything else is a `Sandbox` error.
pub fn decode_exit(outcome: &WaitOutcome) -> (r: Result<i32, Error>)
    ensures
        match r {
            Ok(code) => outcome == WaitOutcome::Exited(code) || outcome == WaitOutcome::Signaled(
                code,
            ),
            Err(e) => !(outcome is Exited) && !(outcome is Signaled) && e.spec_kind()
                == ErrorKind::Sandbox,
        },
{
    match outcome {
        WaitOutcome::Exited(code) => Ok(*code),
        WaitOutcome::Signaled(sig) => Ok(*sig),
        _ => Err(Error::Sandbox("unexpected wait status".to_owned())),
    }
}

/// Builds the final report.  When either limit was exceeded, the returned
/// times are clamped to `limit + 1` to signal the overshoot; so the
/// reported wall-clock time never exceeds `real_time_limit + 1`, and it
/// equals `real_time_limit + 1` exactly when a limit was exceeded.
pub fn make_report(exit_code: i32, time: u64, real_time: u64, config: &ProcessConfig) -> (r:
    Report)
    requires
        config.time_limit + 1 <= u64::MAX,
        config.real_time_limit + 1 <= u64::MAX,
    ensures
        r.exit_code == exit_code,
        r.memory == 0,
        (time > config.time_limit || real_time > config.real_time_limit) ==> (r.time
            == config.time_limit + 1 && r.real_time == config.real_time_limit + 1),
        !(time > config.time_limit || real_time > config.real_time_limit) ==> (r.time == time
            && r.real_time == real_time),
        r.time <= config.time_limit + 1,
        r.real_time <= config.real_time_limit + 1,
        (r.real_time == config.real_time_limit + 1) <==> (time > config.time_limit || real_time
            > config.real_time_limit),
{
    if time > config.time_limit || real_time > config.real_time_limit {
        Report {
            exit_code,
            memory: 0,
            time: config.time_limit + 1,
            real_time: config.real_time_limit + 1,
        }
    } else {
        Report { exit_code, memory: 0, time, real_time }
    }
}

/// The name of the `n`-th sandbox: `sandbox-<n>`.
pub fn sandbox_name(n: u64) -> (r: String)
    ensures
        r@ == "sandbox-"@ + dec_u64(n as int),
{
    let mut s = "sandbox-".to_owned();
    push_u64_decimal(&mut s, n);
    s
}

/// A path below a directory: `dir/name`.
pub fn path_join(dir: &str, name: &str) -> (r: String)
    ensures
        r@ == dir@ + seq!['/'] + name@,
{
    let mut s = dir.to_owned();
    s.push('/');
    s.push_str(name);
    proof {
        assert(s@ =~= dir@ + seq!['/'] + name@);
    }
    s
}

/// The body of one controllers line rewritten for `cgroup.subtree_control`:
/// every space becomes ` +`.
pub open spec fn expand_controllers(s: Seq<char>) -> Seq<char>
    decreases s.len(),
{
    if s.len() == 0 {
        Seq::<char>::empty()
    } else {
        expand_controllers(s.drop_last()) + (if s.last() == ' ' {
            " +"@
        } else {
            seq![s.last()]
        })
    }
}

/// The delegation line written to `cgroup.subtree_control` for one line of
/// `cgroup.controllers`: `+` before every controller name.
pub open spec fn subtree_control_of(line: Seq<char>) -> Seq<char> {
    " +"@ + expand_controllers(line)
}

/// Rewrites one line of `cgroup.controllers` into the token string that
/// delegates every listed controller.
pub fn subtree_control_line(line: &str) -> (r: String)
    ensures
        r@ == subtree_control_of(line@),
{
    let chars = str_chars(line);
    let mut s = " +".to_owned();
    let mut i: usize = 0;
    while i < chars.len()
        invariant
            i <= chars@.len(),
            chars@ == line@,
            s@ == " +"@ + expand_controllers(line@.take(i as int)),
        decreases chars@.len() - i,
    {
        let c = chars[i];
        if c == ' ' {
            s.push_str(" +");
        } else {
            s.push(c);
        }
        proof {
            assert(line@.take(i as int + 1).drop_last() =~= line@.take(i as int));
            assert(line@.take(i as int + 1).last() == line@[i as int]);
            assert(s@ =~= " +"@ + expand_controllers(line@.take(i as int + 1)));
        }
        i += 1;
    }
    proof {
        assert(line@.take(line@.len() as int) =~= line@);
    }
    s
}

/// Where a process stands: a second start is refused; `wait` is callable
/// after a start, and stays callable after completion, where it is
/// idempotent and returns the cached report again.
#[derive(Clone, Copy, Debug, PartialEq, Eq, Structural)]
pub enum ProcessPhase {
    Created,
    Started,
    Finished,
}

/// Whether `start` is allowed in this phase.
pub fn can_start(phase: &ProcessPhase) -> (r: bool)
    ensures
        r == (phase is Created),
{
    matches!(phase, ProcessPhase::Created)
}

/// Whether `wait` is allowed in this phase: after a start, and again
/// after completion.
pub fn can_wait(phase: &ProcessPhase) -> (r: bool)
    ensures
        r == (phase is Started || phase is Finished),
{
    matches!(phase, ProcessPhase::Started | ProcessPhase::Finished)
}

/// One process's lifecycle with its completed report: started once,
/// finished once, and every `wait` after completion yields the same
/// cached report.
pub struct ProcessState {
    phase: ProcessPhase,
    report: Option<Report>,
}

impl ProcessState {
    pub closed spec fn spec_phase(&self) -> ProcessPhase {
        self.phase
    }

    pub closed spec fn spec_report(&self) -> Option<Report> {
        self.report
    }

    /// The report is cached exactly from completion on.
    pub open spec fn inv(&self) -> bool {
        (self.spec_report() is Some) <==> self.spec_phase() is Finished
    }

    pub fn new() -> (r: ProcessState)
        ensures
            r.inv(),
            r.spec_phase() == ProcessPhase::Created,
    {
        ProcessState { phase: ProcessPhase::Created, report: None }
    }

    /// Records the spawn; a second start is refused.
    pub fn start(&mut self) -> (r: Result<(), Error>)
        requires
            old(self).inv(),
        ensures
            final(self).inv(),
            match r {
                Ok(_) => old(self).spec_phase() is Created && final(self).spec_phase()
                    == ProcessPhase::Started,
                Err(e) => !(old(self).spec_phase() is Created) && *final(self) == *old(self)
                    && e.spec_kind() == ErrorKind::Sandbox,
            },
    {
        if can_start(&self.phase) {
            self.phase = ProcessPhase::Started;
            Ok(())
        } else {
            Err(Error::Sandbox("process already started".to_owned()))
        }
    }

    /// Records the supervisor's report once the child is reaped.
    pub fn finish(&mut self, report: Report) -> (r: Result<(), Error>)
        requires
            old(self).inv(),
        ensures
            final(self).inv(),
            match r {
                Ok(_) => old(self).spec_phase() is Started && final(self).spec_phase()
                    == ProcessPhase::Finished && final(self).spec_report() == Some(report),
                Err(e) => !(old(self).spec_phase() is Started) && *final(self) == *old(self)
                    && e.spec_kind() == ErrorKind::Sandbox,
            },
    {
        if matches!(self.phase, ProcessPhase::Started) {
            self.phase = ProcessPhase::Finished;
            self.report = Some(report);
            Ok(())
        } else {
            Err(Error::Sandbox("process is not running".to_owned()))
        }
    }

    /// The wait decision: refused before a start; after a start the
    /// caller supervises until completion (`Ok(None)`); after completion
    /// it is idempotent and yields the cached report every time.
    pub fn wait(&self) -> (r: Result<Option<Report>, Error>)
        requires
            self.inv(),
        ensures
            match r {
                Ok(cached) => (self.spec_phase() is Started && cached is None) || (self.spec_phase()
                    is Finished && cached == self.spec_report() && cached is Some),
                Err(e) => self.spec_phase() is Created && e.spec_kind() == ErrorKind::Sandbox,
            },
    {
        match self.phase {
            ProcessPhase::Created => Err(Error::Sandbox("process is not started".to_owned())),
            ProcessPhase::Started => Ok(None),
            ProcessPhase::Finished => Ok(self.report),
        }
    }
}

} // verus!
