//! Supervision of a single long-running child process driven from a tray
//! menu: the decisions of starting, stopping and watching the process, with
//! the notifications and menu labels that follow from them.
//!
//! The library holds no process itself. It answers each event (a menu
//! click, the outcome of a spawn, the end of a wait) with the next state and
//! the list of actions that its host is to carry out.
pub mod laws;
pub mod model;
pub mod supervisor;

pub use model::{ExitOutcome, Label, Notice, Severity, TrayCommand};
pub use supervisor::{Action, Event, Phase, Supervisor};
