use fsw::filter::{should_deliver, IgnoreCheck};
use fsw::outcome::{classify, CommandSpec, RunOutcome};
use fsw::paths::{path_eq, starts_with};
use fsw::scheduler::{run_queue, Msg, SchedulerState};
use fsw::watchset::{should_descend, WatchSet};

fn path(parts: &[&str]) -> Vec<Vec<u8>> {
    parts.iter().map(|s| s.as_bytes().to_vec()).collect()
}

#[test]
fn scenario_a_kickoff_runs_once() {
    // Startup with no prior changes: the synthetic completion injected
    // at startup fires exactly one run.
    let mut state = SchedulerState::init();
    let mut invocations = 0;
    if state.step(Msg::RunCompleted) {
        invocations += 1;
    }
    assert_eq!(invocations, 1);
    // The kickoff run finishes; nothing further was owed, so no rerun.
    assert!(!state.step(Msg::RunCompleted));
    assert_eq!(invocations, 1);
}

#[test]
fn scenario_b_change_after_kickoff_runs_once_more() {
    let mut state = SchedulerState::init();
    assert!(state.step(Msg::RunCompleted)); // kickoff
    assert!(!state.step(Msg::RunCompleted)); // kickoff run finished
    // One file is touched while idle: exactly one further invocation.
    assert!(state.step(Msg::PathChanged));
    // Its completion owes nothing more.
    assert!(!state.step(Msg::RunCompleted));
}

#[test]
fn scenario_c_burst_while_idle_runs_once() {
    // Five changes land in the queue within the debounce window while
    // idle: the first triggers, the drain discards the other four.
    let idle = SchedulerState {
        running: false,
        pending: false,
    };
    let burst = vec![
        Msg::PathChanged,
        Msg::PathChanged,
        Msg::PathChanged,
        Msg::PathChanged,
        Msg::PathChanged,
    ];
    assert_eq!(run_queue(idle, &burst), 1);
}

#[test]
fn kickoff_with_zero_changes_runs_once() {
    let queue = vec![Msg::RunCompleted];
    assert_eq!(run_queue(SchedulerState::init(), &queue), 1);
}

#[test]
fn changes_during_run_coalesce_into_one_rerun() {
    // A run is in progress; many changes arrive; its completion fires
    // exactly one rerun, not one per change.
    let mut state = SchedulerState::init();
    assert!(state.step(Msg::RunCompleted)); // kickoff: now running
    let mut invocations = 0;
    for _ in 0..100 {
        if state.step(Msg::PathChanged) {
            invocations += 1;
        }
    }
    assert_eq!(invocations, 0);
    if state.step(Msg::RunCompleted) {
        invocations += 1;
    }
    assert_eq!(invocations, 1);
    // The rerun's own completion fires nothing further.
    assert!(!state.step(Msg::RunCompleted));
}

#[test]
fn triggers_never_outrun_completions() {
    // Mutual exclusion, counted over a mixed arrival order: the number
    // of triggers never exceeds the completions consumed plus the one
    // run in flight.
    let msgs = vec![
        Msg::RunCompleted,
        Msg::PathChanged,
        Msg::PathChanged,
        Msg::RunCompleted,
        Msg::PathChanged,
        Msg::RunCompleted,
        Msg::RunCompleted,
        Msg::PathChanged,
    ];
    let mut state = SchedulerState::init();
    let mut triggers = 0;
    let mut completions = 0;
    for m in &msgs {
        if *m == Msg::RunCompleted {
            completions += 1;
        }
        if state.step(*m) {
            triggers += 1;
        }
        assert!(triggers <= completions + 1);
    }
    assert_eq!(triggers, 4);
}

#[test]
fn scenario_d_spawn_failure_reports_and_recovers() {
    // The command cannot be spawned: the outcome is a spawn failure with
    // the error's text, it still signals completion, and a later change
    // triggers a normal invocation.
    let failed = classify(Err(String::from("No such file or directory")));
    assert_eq!(
        failed,
        RunOutcome::SpawnOrWaitFailed(String::from("No such file or directory"))
    );
    let mut state = SchedulerState::init();
    assert!(state.step(Msg::RunCompleted)); // kickoff triggers the doomed run
    assert!(!state.step(failed.completion_signal())); // failure completes the run
    assert!(state.step(Msg::PathChanged)); // a change still triggers normally
}

#[test]
fn classify_exact_outcomes() {
    assert_eq!(classify(Ok(Some(0))), RunOutcome::Exited(0));
    assert_eq!(classify(Ok(Some(2))), RunOutcome::Exited(2));
    assert_eq!(classify(Ok(None)), RunOutcome::ExitedUnknown);
    assert!(matches!(
        classify(Err(String::from("denied"))),
        RunOutcome::SpawnOrWaitFailed(_)
    ));
}

#[test]
fn command_spec_keeps_program_and_args() {
    let spec = CommandSpec::new(
        String::from("echo"),
        vec![String::from("hello")],
    );
    assert_eq!(spec.program, "echo");
    assert_eq!(spec.args, vec![String::from("hello")]);
}

#[test]
fn metadata_changes_are_never_delivered() {
    let vcs = path(&["home", "work", ".git"]);
    let inside = path(&["home", "work", ".git", "objects", "ab"]);
    assert!(!should_deliver(&vcs, &inside, IgnoreCheck::Ignored));
    assert!(!should_deliver(&vcs, &inside, IgnoreCheck::NotIgnored));
    assert!(!should_deliver(&vcs, &inside, IgnoreCheck::Failed));
    // The metadata directory itself is excluded too.
    assert!(!should_deliver(&vcs, &vcs, IgnoreCheck::NotIgnored));
}

#[test]
fn ignored_changes_are_never_delivered() {
    let vcs = path(&["home", "work", ".git"]);
    let target = path(&["home", "work", "target", "debug"]);
    assert!(!should_deliver(&vcs, &target, IgnoreCheck::Ignored));
}

#[test]
fn failed_check_fails_open_and_still_triggers() {
    let vcs = path(&["home", "work", ".git"]);
    let src_file = path(&["home", "work", "src", "main.rs"]);
    assert!(should_deliver(&vcs, &src_file, IgnoreCheck::Failed));
    // The delivered change triggers at once while idle.
    let mut state = SchedulerState {
        running: false,
        pending: false,
    };
    assert!(state.step(Msg::PathChanged));
}

#[test]
fn ordinary_changes_are_delivered() {
    let vcs = path(&["home", "work", ".git"]);
    let src_file = path(&["home", "work", "src", "main.rs"]);
    assert!(should_deliver(&vcs, &src_file, IgnoreCheck::NotIgnored));
}

#[test]
fn prefix_is_component_wise() {
    let ab = path(&["a", "b"]);
    let abc = path(&["a", "b", "c"]);
    let abx = path(&["a", "bc"]);
    assert!(starts_with(&abc, &ab));
    assert!(starts_with(&ab, &ab));
    assert!(!starts_with(&abx, &ab)); // "bc" is not the component "b"
    assert!(!starts_with(&ab, &abc)); // a longer path is no prefix
    assert!(starts_with(&ab, &path(&[]))); // the empty path prefixes all
}

#[test]
fn path_equality_is_component_wise() {
    assert!(path_eq(&path(&["a", "b"]), &path(&["a", "b"])));
    assert!(!path_eq(&path(&["a", "b"]), &path(&["a", "b", "c"])));
    assert!(!path_eq(&path(&["a", "b"]), &path(&["a", "c"])));
    assert!(!path_eq(&path(&["ab"]), &path(&["a", "b"])));
}

#[test]
fn watch_set_holds_each_directory_once() {
    let mut ws = WatchSet::new();
    assert_eq!(ws.len(), 0);
    let root = path(&["home", "work"]);
    let sub = path(&["home", "work", "src"]);
    assert!(!ws.contains(&root));
    ws.insert(root.clone());
    assert!(ws.contains(&root));
    assert!(!ws.contains(&sub));
    assert_eq!(ws.len(), 1);
    ws.insert(sub.clone());
    assert_eq!(ws.len(), 2);
    // Inserting a directory again changes nothing: no duplicates.
    ws.insert(root.clone());
    assert_eq!(ws.len(), 2);
    assert!(ws.contains(&root));
    assert!(ws.contains(&sub));
}

#[test]
fn descend_decision_covers_every_reason() {
    let mut ws = WatchSet::new();
    let vcs = path(&["home", "work", ".git"]);
    let fresh = path(&["home", "work", "src"]);
    let in_vcs = path(&["home", "work", ".git", "hooks"]);
    assert!(should_descend(&ws, &vcs, &fresh, true, IgnoreCheck::NotIgnored));
    // Not a directory.
    assert!(!should_descend(&ws, &vcs, &fresh, false, IgnoreCheck::NotIgnored));
    // Inside the metadata directory.
    assert!(!should_descend(&ws, &vcs, &in_vcs, true, IgnoreCheck::NotIgnored));
    // Reported ignored.
    assert!(!should_descend(&ws, &vcs, &fresh, true, IgnoreCheck::Ignored));
    // A failed check fails open: still descended into.
    assert!(should_descend(&ws, &vcs, &fresh, true, IgnoreCheck::Failed));
    // Already watched.
    ws.insert(fresh.clone());
    assert!(!should_descend(&ws, &vcs, &fresh, true, IgnoreCheck::NotIgnored));
}

#[test]
fn drained_queue_fires_at_most_once() {
    // Whatever is already queued, the drain lets at most one run fire.
    let states = [
        SchedulerState {
            running: false,
            pending: false,
        },
        SchedulerState {
            running: false,
            pending: true,
        },
        SchedulerState {
            running: true,
            pending: false,
        },
        SchedulerState {
            running: true,
            pending: true,
        },
    ];
    let queue = vec![
        Msg::PathChanged,
        Msg::RunCompleted,
        Msg::PathChanged,
        Msg::RunCompleted,
    ];
    for s in states {
        assert!(run_queue(s, &queue) <= 1);
    }
    // While a run is in progress with nothing owed, queued changes only
    // mark the rerun owed; the completion then fires it.
    let busy = SchedulerState {
        running: true,
        pending: false,
    };
    assert_eq!(run_queue(busy, &vec![Msg::PathChanged]), 0);
    assert_eq!(run_queue(busy, &vec![Msg::PathChanged, Msg::RunCompleted]), 1);
}
