//! The events that the watcher, the command supervisor and the coordinator
//! exchange.
use vstd::prelude::*;

use crate::manifest::Files;

verus! {

/// A message on the supervisor's event channel.
#[derive(Clone, Debug, PartialEq)]
pub enum WatcherEvent {
    Starting,
    /// The run command's process id and the executable names it was found by.
    Watching(u32, Vec<String>),
    /// The new or modified entries of one scan; never empty.
    FileChanged(Vec<Files>),
    Stopping,
    Stopped,
    Error(String),
    Exit,
}

/// The short upper-case tag of an event.
pub open spec fn event_label(e: WatcherEvent) -> Seq<char> {
    match e {
        WatcherEvent::Starting => "STARTING"@,
        WatcherEvent::Watching(..) => "WATCHING"@,
        WatcherEvent::FileChanged(..) => "FILE_CHANGED"@,
        WatcherEvent::Stopping => "STOPPING"@,
        WatcherEvent::Stopped => "STOPPED"@,
        WatcherEvent::Error(..) => "ERROR"@,
        WatcherEvent::Exit => "EXIT"@,
    }
}

impl WatcherEvent {
    /// The event's tag, as shown in status lines.
    pub fn label(&self) -> (r: String)
        ensures
            r@ == event_label(*self),
    {
        match self {
            WatcherEvent::Starting => String::from_str("STARTING"),
            WatcherEvent::Watching(..) => String::from_str("WATCHING"),
            WatcherEvent::FileChanged(..) => String::from_str("FILE_CHANGED"),
            WatcherEvent::Stopping => String::from_str("STOPPING"),
            WatcherEvent::Stopped => String::from_str("STOPPED"),
            WatcherEvent::Error(..) => String::from_str("ERROR"),
            WatcherEvent::Exit => String::from_str("EXIT"),
        }
    }
}

} // verus!
