//! One tick of the directory watcher: compare a fresh scan with the baseline.
//!
//! The watcher keeps running after it reports a change: the new scan becomes
//! the baseline and polling goes on.
use vstd::prelude::*;

use crate::event::WatcherEvent;
use crate::manifest::{Files, manifest_view, changed_entries};
use crate::utils::get_list_differences;

verus! {

/// A copy of one entry.
pub fn copy_entry(f: &Files) -> (r: Files)
    ensures
        r@ == f@,
{
    Files {
        name: f.name.clone(),
        path: f.path.clone(),
        time: f.time,
        extension: f.extension.clone(),
    }
}

/// A copy of a manifest.
pub fn copy_manifest(m: &Vec<Files>) -> (r: Vec<Files>)
    ensures
        manifest_view(r@) == manifest_view(m@),
{
    let mut r: Vec<Files> = Vec::new();
    for i in 0..m.len()
        invariant
            r@.len() == i,
            forall|j: int| 0 <= j < i ==> r@[j]@ == m@[j]@,
    {
        r.push(copy_entry(&m[i]));
    }
    assert(manifest_view(r@) =~= manifest_view(m@));
    r
}

/// The outcome of one watcher tick: the baseline for the next tick, and the
/// event to send, if any.
pub struct WatchTick {
    pub baseline: Vec<Files>,
    pub event: Option<WatcherEvent>,
}

/// Compares the scan `current` with `baseline`. When some entry of `current`
/// is new or modified, the tick reports exactly those entries in a
/// `FileChanged` event and `current` becomes the baseline; otherwise nothing
/// is reported and the baseline stays.
pub fn poll_changes(baseline: Vec<Files>, current: Vec<Files>) -> (r: WatchTick)
    ensures
        ({
            let d = changed_entries(manifest_view(current@), manifest_view(baseline@));
            &&& d.len() == 0 ==> r.event is None && manifest_view(r.baseline@) == manifest_view(
                baseline@,
            )
            &&& d.len() > 0 ==> manifest_view(r.baseline@) == manifest_view(current@)
            &&& d.len() > 0 ==> (r.event matches Some(WatcherEvent::FileChanged(c))
                && manifest_view(c@) == d)
        }),
{
    let scanned = copy_manifest(&current);
    let previous = copy_manifest(&baseline);
    let diff = get_list_differences(scanned, previous);
    let changes = match diff {
        Ok(changes) => changes,
        Err(_) => Vec::new(),
    };
    if changes.len() == 0 {
        WatchTick { baseline, event: None }
    } else {
        WatchTick { baseline: current, event: Some(WatcherEvent::FileChanged(changes)) }
    }
}

} // verus!
