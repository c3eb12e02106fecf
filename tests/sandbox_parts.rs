use code_sandbox::config::Settings;
use code_sandbox::isolation::{anchor_plan, syscall_filter, IsolationStep, Resource};
use code_sandbox::sandbox::Sandbox;
use code_sandbox::termination::{
    Termination, TerminationAction, TerminationEvent, TerminationPhase, TerminationResult, MAX_POLLS,
};
use code_sandbox::text::decimal_string;

#[test]
fn decimal_rendering() {
    assert_eq!(decimal_string(0), "0");
    assert_eq!(decimal_string(7), "7");
    assert_eq!(decimal_string(10), "10");
    assert_eq!(decimal_string(4242), "4242");
    assert_eq!(decimal_string(u32::MAX), "4294967295");
}

#[test]
fn sandbox_from_fork_results() {
    let s = Sandbox::new(Some(31337), true).unwrap();
    assert_eq!(s.pid(), 31337);
    assert!(s.complete_isolation());
    assert!(Sandbox::new(None, false).is_none());
    assert!(Sandbox::new(Some(0), false).is_none());
    assert!(Sandbox::new(Some(-1), false).is_none());
}

#[test]
fn status_path_and_injection_line() {
    let s = Sandbox::new(Some(812), false).unwrap();
    assert_eq!(s.status_path(), "/proc/812/status");
    assert_eq!(
        s.injection_command("python3 /tmp/a.py"),
        "nsenter --target 812 --pid -- sh -c \"python3 /tmp/a.py\""
    );
}

#[test]
fn outcome_trims_and_picks_the_stream() {
    assert_eq!(Sandbox::command_outcome(true, b"  42 \n\n", b"warn"), Ok("42".to_string()));
    assert_eq!(Sandbox::command_outcome(false, b"out", b"\terr\n"), Err("err".to_string()));
    assert_eq!(Sandbox::command_outcome(true, b"", b""), Ok(String::new()));
}

#[test]
fn outcome_replaces_invalid_utf8() {
    assert_eq!(Sandbox::command_outcome(true, b"a\xffb\n", b""), Ok("a\u{FFFD}b".to_string()));
}

#[test]
fn minimal_isolation_plan() {
    let plan = anchor_plan(99, false);
    assert_eq!(plan.len(), 4);
    assert!(matches!(plan[0], IsolationStep::SeparateNamespaces));
    match &plan[1] {
        IsolationStep::Warn(m) => assert_eq!(m, "Warning: Not using complete isolation setup!"),
        other => panic!("unexpected {:?}", other),
    }
    assert!(matches!(plan[2], IsolationStep::SetLimit(Resource::CpuSeconds, 10)));
    assert!(matches!(plan[3], IsolationStep::SetLimit(Resource::FileSizeBytes, 20971520)));
    assert!(plan[0].is_fatal());
    assert!(!plan[1].is_fatal());
    assert!(!plan[2].is_fatal());
    assert!(!plan[3].is_fatal());
}

fn write_of(step: &IsolationStep) -> (String, String) {
    match step {
        IsolationStep::WriteFile(p, c) => (p.clone(), c.clone()),
        other => panic!("expected WriteFile, got {:?}", other),
    }
}

#[test]
fn complete_isolation_plan_order() {
    let plan = anchor_plan(4242, true);
    assert_eq!(plan.len(), 15);
    assert!(matches!(plan[0], IsolationStep::SeparateNamespaces));
    match &plan[1] {
        IsolationStep::CreateDir(d) => assert_eq!(d, "/sys/fs/cgroup/sandbox_4242"),
        other => panic!("unexpected {:?}", other),
    }
    let dir = "/sys/fs/cgroup/sandbox_4242";
    assert_eq!(write_of(&plan[2]), (format!("{}/cpu.max", dir), "50000 100000".to_string()));
    assert_eq!(write_of(&plan[3]), (format!("{}/memory.max", dir), "134217728".to_string()));
    assert_eq!(write_of(&plan[4]), (format!("{}/cgroup.procs", dir), "4242".to_string()));
    match &plan[5] {
        IsolationStep::ChangeRoot(r) => assert_eq!(r, "sandbox/4242/root"),
        other => panic!("unexpected {:?}", other),
    }
    match &plan[6] {
        IsolationStep::ChangeDir(r) => assert_eq!(r, "/"),
        other => panic!("unexpected {:?}", other),
    }
    assert_eq!(write_of(&plan[7]), ("/proc/self/setgroups".to_string(), "deny".to_string()));
    assert_eq!(write_of(&plan[8]), ("/proc/self/uid_map".to_string(), "1000 1000 1".to_string()));
    assert_eq!(write_of(&plan[9]), ("/proc/self/gid_map".to_string(), "1000 1000 1".to_string()));
    assert_eq!(write_of(&plan[10]), (format!("{}/pids.max", dir), "20".to_string()));
    assert_eq!(write_of(&plan[11]), (format!("{}/net_cls.classid", dir), "0".to_string()));
    assert!(matches!(plan[12], IsolationStep::FilterSyscalls));
    assert!(matches!(plan[13], IsolationStep::SetLimit(Resource::CpuSeconds, 10)));
    assert!(matches!(plan[14], IsolationStep::SetLimit(Resource::FileSizeBytes, 20971520)));
    for step in &plan[..13] {
        assert!(step.is_fatal());
    }
}

#[test]
fn syscall_filter_allows_read_write_exit() {
    let rules = syscall_filter();
    let nrs: Vec<usize> = rules.iter().map(|r| r.syscall).collect();
    assert_eq!(nrs, vec![0, 1, 60]);
    assert!(rules.iter().all(|r| r.arg_index == 0 && r.min_value == 0));
}

#[test]
fn termination_of_an_exited_anchor_is_immediate() {
    let mut first = Termination::new();
    assert_eq!(first.step(TerminationEvent::Signalled(true)), TerminationAction::Poll);
    assert_eq!(
        first.step(TerminationEvent::Polled(true)),
        TerminationAction::Stop(TerminationResult::Exited)
    );
    assert_eq!(first.polls, 1);
    // a second termination: the process is gone, so the signal cannot be sent
    let mut second = Termination::new();
    assert_eq!(
        second.step(TerminationEvent::Signalled(false)),
        TerminationAction::Stop(TerminationResult::SignalFailed)
    );
    assert_eq!(second.polls, 0);
    assert!(second.is_finished());
}

#[test]
fn termination_gives_up_after_five_polls() {
    let mut t = Termination::new();
    let mut action = t.step(TerminationEvent::Signalled(true));
    let mut polls = 0;
    let mut sleeps = 0;
    loop {
        action = match action {
            TerminationAction::Poll => {
                polls += 1;
                t.step(TerminationEvent::Polled(false))
            }
            TerminationAction::Sleep => {
                sleeps += 1;
                t.step(TerminationEvent::Slept)
            }
            TerminationAction::Stop(r) => {
                assert_eq!(r, TerminationResult::GaveUp);
                break;
            }
            TerminationAction::Signal => panic!("signal asked twice"),
        };
    }
    assert_eq!(polls, MAX_POLLS);
    assert_eq!(sleeps, 5);
    assert_eq!(t.phase, TerminationPhase::Finished(TerminationResult::GaveUp));
    assert_eq!(
        t.step(TerminationEvent::Polled(true)),
        TerminationAction::Stop(TerminationResult::GaveUp)
    );
}

#[test]
fn settings_defaults_and_parsing() {
    let s = Settings::from_values(None, None);
    assert_eq!(s.app_host, "127.0.0.1:8000");
    assert!(!s.use_complete_isolation);
    let s = Settings::from_values(Some("0.0.0.0:9000".to_string()), Some("true".to_string()));
    assert_eq!(s.app_host, "0.0.0.0:9000");
    assert!(s.use_complete_isolation);
    assert!(!Settings::from_values(None, Some("false".to_string())).use_complete_isolation);
    assert!(!Settings::from_values(None, Some("yes".to_string())).use_complete_isolation);
    assert!(!Settings::from_values(None, Some("TRUE".to_string())).use_complete_isolation);
}
