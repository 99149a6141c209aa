//! The command supervisor's decisions: what to report and whether to start
//! the run command again once its process has ended.
use vstd::prelude::*;

use crate::event::WatcherEvent;

verus! {

/// How the supervised child process ended, or why waiting for it failed.
#[derive(Clone, Debug, PartialEq)]
pub enum ChildOutcome {
    /// It exited with this status code.
    Exited(i32),
    /// It was ended by a signal and has no exit code.
    Signalled,
    /// Waiting for it failed, with this message.
    WaitFailed(String),
}

/// What the supervisor does next: the event it sends, and whether it spawns
/// the run command again.
pub struct SupervisorStep {
    pub event: WatcherEvent,
    pub respawn: bool,
}

/// The supervisor's reaction to the end of its child: an exit code of zero
/// means the program was closed, so `Exit` is sent and nothing is respawned;
/// any other ending sends `Starting` and respawns; a failed wait is reported
/// as an `Error` and the loop goes on.
pub fn on_child_finished(outcome: ChildOutcome) -> (r: SupervisorStep)
    ensures
        outcome == ChildOutcome::Exited(0) ==> r.event is Exit && !r.respawn,
        (outcome matches ChildOutcome::Exited(code) && code != 0) ==> r.event is Starting
            && r.respawn,
        outcome is Signalled ==> r.event is Starting && r.respawn,
        outcome matches ChildOutcome::WaitFailed(m) ==> (r.event matches WatcherEvent::Error(e)
            && e@ == m@) && r.respawn,
{
    match outcome {
        ChildOutcome::Exited(code) => {
            if code == 0 {
                SupervisorStep { event: WatcherEvent::Exit, respawn: false }
            } else {
                SupervisorStep { event: WatcherEvent::Starting, respawn: true }
            }
        },
        ChildOutcome::Signalled => SupervisorStep { event: WatcherEvent::Starting, respawn: true },
        ChildOutcome::WaitFailed(message) => SupervisorStep {
            event: WatcherEvent::Error(message),
            respawn: true,
        },
    }
}

/// The supervisor's reaction when the run command could not be spawned: the
/// failure is reported as an `Error` and the loop tries again.
pub fn on_spawn_failed(message: String) -> (r: SupervisorStep)
    ensures
        r.event matches WatcherEvent::Error(e) && e@ == message@,
        r.respawn,
{
    SupervisorStep { event: WatcherEvent::Error(message), respawn: true }
}

} // verus!
