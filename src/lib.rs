//! A watch-and-reload supervisor: it scans a project directory, notices new
//! or modified files, and restarts the project's run command when they change.
//!
//! The library holds the decisions of the supervisor, each with a contract:
//! the manifest differ, the directory scanner's traversal rules, the watcher's
//! polling step, process identification, the command supervisor's restart
//! policy and the event coordinator's reactions.
pub mod args;
pub mod coordinator;
pub mod event;
pub mod manifest;
pub mod process;
pub mod scanner;
pub mod supervisor;
pub mod text;
pub mod utils;
pub mod watcher;

pub use event::WatcherEvent;
pub use manifest::Files;
