//! The event coordinator: the single consumer of the event channel and the
//! only owner of the supervisor's state.
use vstd::prelude::*;

use crate::event::WatcherEvent;
use crate::manifest::Files;
use crate::text::views;

verus! {

/// The build output directory of the project at `dir`.
pub open spec fn build_dir(dir: Seq<char>) -> Seq<char> {
    dir + "/target"@
}

/// What the driver of the coordinator does after an event.
#[derive(Debug)]
pub enum Reaction {
    /// Clear the display; no process state changes.
    Reset,
    /// Show the tracked process; `ambiguous` when several executable names
    /// were candidates.
    ShowWatching(u32, Vec<String>, bool),
    /// Kill the tracked process if there is one (one that has already ended
    /// is no error), then start a fresh directory watcher at the root.
    Reload(Option<u32>, Vec<Files>),
    /// End the program with this exit status, after showing the message.
    Terminate(i32, String),
    /// Nothing to do.
    Nothing,
}

/// The supervisor's state.
pub struct WatchRs {
    pub status: WatcherEvent,
    /// The process of the run command, once it has been found.
    pub process_id: Option<u32>,
    pub dir_path: String,
    pub ignore_paths: Vec<String>,
    /// Extensions to track; empty tracks every file.
    pub file_types: Vec<String>,
    /// Whether the run command is started and restarted.
    pub reload: bool,
}

impl WatchRs {
    /// The ignored paths always hold the build output directory.
    pub open spec fn wf(&self) -> bool {
        views(self.ignore_paths@).contains(build_dir(self.dir_path@))
    }

    /// The state of a supervisor for the project at `dir_path`: stopped, no
    /// process tracked, the build output directory ignored, every extension
    /// tracked, reloading on.
    pub fn new(dir_path: String) -> (r: WatchRs)
        ensures
            r.wf(),
            r.status is Stopped,
            r.process_id is None,
            r.dir_path@ == dir_path@,
            views(r.ignore_paths@) == seq![build_dir(dir_path@)],
            r.file_types@.len() == 0,
            r.reload,
    {
        let target = dir_path.clone().concat("/target");
        let mut ignore_paths: Vec<String> = Vec::new();
        ignore_paths.push(target);
        assert(views(ignore_paths@) =~= seq![build_dir(dir_path@)]);
        assert(views(ignore_paths@)[0] == build_dir(dir_path@));
        WatchRs {
            status: WatcherEvent::Stopped,
            process_id: None,
            dir_path,
            ignore_paths,
            file_types: Vec::new(),
            reload: true,
        }
    }

    /// Reacts to one event of the channel. The status follows the
    /// lifecycle: `Starting` while the command (re)starts, `Watching` once
    /// its process is known, `Exit` after a clean exit, and `Stopped` after
    /// an error.
    pub fn handle_event(&mut self, event: WatcherEvent) -> (r: Reaction)
        requires
            old(self).wf(),
        ensures
            final(self).wf(),
            final(self).dir_path == old(self).dir_path,
            final(self).ignore_paths == old(self).ignore_paths,
            final(self).file_types == old(self).file_types,
            final(self).reload == old(self).reload,
            event is Starting ==> final(self).status is Starting,
            event matches WatcherEvent::Watching(pid, _) ==> (final(self).status matches WatcherEvent::Watching(p, _) && p == pid),
            event is FileChanged ==> final(self).status is Starting,
            event is Error ==> final(self).status is Stopped,
            event is Exit ==> final(self).status is Exit,
            (event is Stopping || event is Stopped) ==> final(self).status == old(self).status,
            event is Starting ==> r is Reset && final(self).process_id == old(self).process_id,
            event matches WatcherEvent::Watching(pid, names) ==> final(self).process_id == Some(
                pid,
            ) && (r matches Reaction::ShowWatching(p, n, ambiguous) && p == pid && n@ == names@
                && ambiguous == (names@.len() > 1)),
            event matches WatcherEvent::FileChanged(files) ==> final(self).process_id == old(
                self,
            ).process_id && (r matches Reaction::Reload(kill, f) && kill == old(self).process_id
                && f@ == files@),
            event matches WatcherEvent::Error(m) ==> (r matches Reaction::Terminate(code, msg)
                && code == 1 && msg@ == m@) && final(self).process_id == old(self).process_id,
            event is Exit ==> (r matches Reaction::Terminate(code, _) && code == 0)
                && final(self).process_id == old(self).process_id,
            (event is Stopping || event is Stopped) ==> r is Nothing && final(self).process_id
                == old(self).process_id,
    {
        match event {
            WatcherEvent::Starting => {
                self.status = WatcherEvent::Starting;
                Reaction::Reset
            },
            WatcherEvent::Watching(pid, names) => {
                self.process_id = Some(pid);
                self.status = WatcherEvent::Watching(pid, Vec::new());
                let ambiguous = names.len() > 1;
                Reaction::ShowWatching(pid, names, ambiguous)
            },
            WatcherEvent::FileChanged(files) => {
                self.status = WatcherEvent::Starting;
                Reaction::Reload(self.process_id, files)
            },
            WatcherEvent::Error(message) => {
                self.status = WatcherEvent::Stopped;
                Reaction::Terminate(1, message)
            },
            WatcherEvent::Exit => {
                self.status = WatcherEvent::Exit;
                Reaction::Terminate(0, String::new())
            },
            WatcherEvent::Stopping => Reaction::Nothing,
            WatcherEvent::Stopped => Reaction::Nothing,
        }
    }

    /// Reacts to the event channel closing while the coordinator still
    /// waits: every producer has ended, which is treated as an error.
    pub fn handle_disconnect(&mut self, message: String) -> (r: Reaction)
        requires
            old(self).wf(),
        ensures
            final(self).wf(),
            final(self).process_id == old(self).process_id,
            final(self).status is Stopped,
            r matches Reaction::Terminate(code, msg) && code == 1 && msg@ == message@,
    {
        self.handle_event(WatcherEvent::Error(message))
    }
}

} // verus!
