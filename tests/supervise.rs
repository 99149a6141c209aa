use watchrs::coordinator::{Reaction, WatchRs};
use watchrs::supervisor::{on_child_finished, on_spawn_failed, ChildOutcome};
use watchrs::{Files, WatcherEvent};

#[test]
fn supervisor_exits_on_code_zero() {
    let step = on_child_finished(ChildOutcome::Exited(0));
    assert_eq!(step.event, WatcherEvent::Exit);
    assert!(!step.respawn);
}

#[test]
fn supervisor_respawns_on_failure_code() {
    let step = on_child_finished(ChildOutcome::Exited(101));
    assert_eq!(step.event, WatcherEvent::Starting);
    assert!(step.respawn);
    let step = on_child_finished(ChildOutcome::Exited(-1));
    assert_eq!(step.event, WatcherEvent::Starting);
    assert!(step.respawn);
}

#[test]
fn supervisor_respawns_after_signal() {
    let step = on_child_finished(ChildOutcome::Signalled);
    assert_eq!(step.event, WatcherEvent::Starting);
    assert!(step.respawn);
}

#[test]
fn supervisor_reports_wait_and_spawn_failures() {
    let step = on_child_finished(ChildOutcome::WaitFailed("broken pipe".to_string()));
    assert_eq!(step.event, WatcherEvent::Error("broken pipe".to_string()));
    assert!(step.respawn);
    let step = on_spawn_failed("no cargo".to_string());
    assert_eq!(step.event, WatcherEvent::Error("no cargo".to_string()));
    assert!(step.respawn);
}

#[test]
fn test_watch_rs_setup() {
    let watch_rs = WatchRs::new("/home/dev/project".to_string());
    assert_eq!(watch_rs.status, WatcherEvent::Stopped);
    assert_eq!(watch_rs.dir_path, "/home/dev/project");
    assert_eq!(watch_rs.process_id, None);
    assert_eq!(watch_rs.ignore_paths, vec!["/home/dev/project/target".to_string()]);
    assert!(watch_rs.file_types.is_empty());
    assert!(watch_rs.reload);
}

fn changed() -> Vec<Files> {
    vec![Files {
        name: "a.rs".to_string(),
        path: "/p/a.rs".to_string(),
        time: 3,
        extension: "rs".to_string(),
    }]
}

#[test]
fn coordinator_tracks_pid_and_kills_on_change() {
    let mut w = WatchRs::new("/p".to_string());
    match w.handle_event(WatcherEvent::FileChanged(changed())) {
        Reaction::Reload(kill, files) => {
            assert_eq!(kill, None);
            assert_eq!(files, changed());
        }
        other => panic!("unexpected {:?}", other),
    }
    match w.handle_event(WatcherEvent::Watching(77, vec!["app".to_string()])) {
        Reaction::ShowWatching(pid, names, ambiguous) => {
            assert_eq!(pid, 77);
            assert_eq!(names, vec!["app".to_string()]);
            assert!(!ambiguous);
        }
        other => panic!("unexpected {:?}", other),
    }
    assert_eq!(w.process_id, Some(77));
    assert!(matches!(w.status, WatcherEvent::Watching(77, _)));
    match w.handle_event(WatcherEvent::FileChanged(changed())) {
        Reaction::Reload(kill, _) => assert_eq!(kill, Some(77)),
        other => panic!("unexpected {:?}", other),
    }
    assert_eq!(w.status, WatcherEvent::Starting);
}

#[test]
fn coordinator_flags_ambiguous_candidates() {
    let mut w = WatchRs::new("/p".to_string());
    let names = vec!["a.exe".to_string(), "b.exe".to_string()];
    match w.handle_event(WatcherEvent::Watching(5, names)) {
        Reaction::ShowWatching(_, _, ambiguous) => assert!(ambiguous),
        other => panic!("unexpected {:?}", other),
    }
}

#[test]
fn coordinator_terminal_events() {
    let mut w = WatchRs::new("/p".to_string());
    assert!(matches!(w.handle_event(WatcherEvent::Starting), Reaction::Reset));
    assert_eq!(w.status, WatcherEvent::Starting);
    assert!(matches!(w.handle_event(WatcherEvent::Stopping), Reaction::Nothing));
    assert!(matches!(w.handle_event(WatcherEvent::Stopped), Reaction::Nothing));
    assert_eq!(w.status, WatcherEvent::Starting);
    match w.handle_event(WatcherEvent::Error("scan failed".to_string())) {
        Reaction::Terminate(code, msg) => {
            assert_eq!(code, 1);
            assert_eq!(msg, "scan failed");
        }
        other => panic!("unexpected {:?}", other),
    }
    assert_eq!(w.status, WatcherEvent::Stopped);
    match w.handle_event(WatcherEvent::Exit) {
        Reaction::Terminate(code, _) => assert_eq!(code, 0),
        other => panic!("unexpected {:?}", other),
    }
    assert_eq!(w.status, WatcherEvent::Exit);
    match w.handle_disconnect("channel closed".to_string()) {
        Reaction::Terminate(code, msg) => {
            assert_eq!(code, 1);
            assert_eq!(msg, "channel closed");
        }
        other => panic!("unexpected {:?}", other),
    }
}
