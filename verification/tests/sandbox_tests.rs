use solve::sandbox::{
    can_start, can_wait, decode_exit, make_report, path_join, sandbox_name, subtree_control_line,
    supervise_step, ProcessConfig, ProcessPhase, ProcessState, SuperviseAction, WaitOutcome,
};

fn config(time_limit: u64, real_time_limit: u64) -> ProcessConfig {
    ProcessConfig {
        command: vec!["/bin/sh".to_string(), "-c".to_string(), "sleep 10".to_string()],
        environ: vec![],
        layers: vec!["/rootfs".to_string()],
        work_dir: "/".to_string(),
        time_limit,
        real_time_limit,
        memory_limit: 1024 * 1024,
    }
}

#[test]
fn supervision_decisions() {
    assert_eq!(
        supervise_step(&WaitOutcome::StillAlive, false, 100, 1000),
        SuperviseAction::Sleep
    );
    assert_eq!(
        supervise_step(&WaitOutcome::StillAlive, true, 100, 1000),
        SuperviseAction::Kill
    );
    assert_eq!(
        supervise_step(&WaitOutcome::StillAlive, false, 1001, 1000),
        SuperviseAction::Kill
    );
    assert_eq!(
        supervise_step(&WaitOutcome::StillAlive, false, 1000, 1000),
        SuperviseAction::Sleep
    );
    assert_eq!(
        supervise_step(&WaitOutcome::Exited(0), false, 100, 1000),
        SuperviseAction::Reap
    );
    assert_eq!(
        supervise_step(&WaitOutcome::Signaled(9), true, 100, 1000),
        SuperviseAction::Reap
    );
}

#[test]
fn exit_decoding() {
    assert_eq!(decode_exit(&WaitOutcome::Exited(0)).unwrap(), 0);
    assert_eq!(decode_exit(&WaitOutcome::Exited(3)).unwrap(), 3);
    // A fatal signal reports the signal number, by Unix convention.
    assert_eq!(decode_exit(&WaitOutcome::Signaled(9)).unwrap(), 9);
    assert!(decode_exit(&WaitOutcome::StillAlive).is_err());
    assert!(decode_exit(&WaitOutcome::Other).is_err());
}

#[test]
fn wall_clock_overshoot_clamped() {
    // A sleeping child killed after one second of wall clock: the
    // reported real time signals the overshoot as limit plus one.
    let report = make_report(9, 0, 1500, &config(2000, 1000));
    assert_eq!(report.exit_code, 9);
    assert_eq!(report.real_time, 1001);
    assert_eq!(report.time, 2001);
    assert_eq!(report.memory, 0);
}

#[test]
fn in_limit_report_kept() {
    let report = make_report(0, 0, 700, &config(2000, 1000));
    assert_eq!(report.exit_code, 0);
    assert_eq!(report.real_time, 700);
    assert_eq!(report.time, 0);
}

#[test]
fn sandbox_paths() {
    assert_eq!(sandbox_name(0), "sandbox-0");
    assert_eq!(sandbox_name(17), "sandbox-17");
    let state = path_join("/tmp/safeexec", "sandbox-3");
    assert_eq!(state, "/tmp/safeexec/sandbox-3");
    assert_eq!(path_join(&state, "upper"), "/tmp/safeexec/sandbox-3/upper");
    assert_eq!(path_join(&state, "work"), "/tmp/safeexec/sandbox-3/work");
    assert_eq!(path_join(&state, "rootfs"), "/tmp/safeexec/sandbox-3/rootfs");
}

#[test]
fn controller_delegation_line() {
    assert_eq!(
        subtree_control_line("cpuset cpu io memory"),
        " +cpuset +cpu +io +memory"
    );
    assert_eq!(subtree_control_line("memory"), " +memory");
    assert_eq!(subtree_control_line(""), " +");
}

#[test]
fn process_phases() {
    assert!(can_start(&ProcessPhase::Created));
    assert!(!can_start(&ProcessPhase::Started));
    assert!(!can_wait(&ProcessPhase::Created));
    assert!(can_wait(&ProcessPhase::Started));
    // Waiting stays allowed after completion: it is idempotent there.
    assert!(can_wait(&ProcessPhase::Finished));
}

#[test]
fn wait_is_idempotent_after_completion() {
    let mut state = ProcessState::new();
    assert!(state.wait().is_err());
    state.start().unwrap();
    assert!(state.start().is_err());
    assert_eq!(state.wait().unwrap(), None);
    let report = make_report(0, 0, 700, &config(2000, 1000));
    state.finish(report).unwrap();
    assert_eq!(state.wait().unwrap(), Some(report));
    // A second wait after completion returns the same cached report.
    assert_eq!(state.wait().unwrap(), Some(report));
    assert!(state.finish(report).is_err());
}
