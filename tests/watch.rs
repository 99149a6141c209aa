use watchrs::watcher::poll_changes;
use watchrs::{Files, WatcherEvent};

fn entry(name: &str, time: i128) -> Files {
    Files {
        name: String::from(name),
        path: format!("/p/{}", name),
        time,
        extension: String::from("txt"),
    }
}

#[test]
fn watcher_reports_one_new_file_on_empty_baseline() {
    let tick = poll_changes(Vec::new(), vec![entry("c.txt", 500)]);
    match tick.event {
        Some(WatcherEvent::FileChanged(files)) => {
            assert_eq!(files.len(), 1);
            assert_eq!(files[0].name, "c.txt");
        }
        other => panic!("unexpected {:?}", other),
    }
    assert_eq!(tick.baseline, vec![entry("c.txt", 500)]);
}

#[test]
fn watcher_stays_quiet_without_changes() {
    let base = vec![entry("a.txt", 1), entry("b.txt", 2)];
    let tick = poll_changes(base.clone(), base.clone());
    assert!(tick.event.is_none());
    assert_eq!(tick.baseline, base);
}

#[test]
fn watcher_keeps_baseline_after_deletion() {
    let base = vec![entry("a.txt", 1), entry("b.txt", 2)];
    let tick = poll_changes(base.clone(), vec![entry("a.txt", 1)]);
    assert!(tick.event.is_none());
    assert_eq!(tick.baseline, base);
}

#[test]
fn watcher_rebases_after_report() {
    let base = vec![entry("a.txt", 1)];
    let now = vec![entry("a.txt", 2)];
    let tick = poll_changes(base, now.clone());
    assert_eq!(tick.event, Some(WatcherEvent::FileChanged(now.clone())));
    assert_eq!(tick.baseline, now.clone());
    let again = poll_changes(tick.baseline, now);
    assert!(again.event.is_none());
}

#[test]
fn event_labels() {
    assert_eq!(WatcherEvent::Starting.label(), "STARTING");
    assert_eq!(WatcherEvent::Watching(3, Vec::new()).label(), "WATCHING");
    assert_eq!(WatcherEvent::FileChanged(Vec::new()).label(), "FILE_CHANGED");
    assert_eq!(WatcherEvent::Stopping.label(), "STOPPING");
    assert_eq!(WatcherEvent::Stopped.label(), "STOPPED");
    assert_eq!(WatcherEvent::Error("x".to_string()).label(), "ERROR");
    assert_eq!(WatcherEvent::Exit.label(), "EXIT");
}
