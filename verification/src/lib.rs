//! An append-only log of command executions.
//!
//! Each entry records the command text, the output lines captured so far and
//! a status that starts as `Running` and settles at most once. Entries are
//! addressed by their position, which never changes once assigned.

pub mod status;
pub mod model;
pub mod lines;
pub mod action;
pub mod demo;
pub mod entries;
pub mod log;
pub mod state;
pub mod router;
pub mod laws;

pub use action::Action;
pub use log::{ActionLog, Snapshot};
pub use model::{ActionView, StateView};
pub use router::{Event, Reply};
pub use state::AppState;
pub use status::{ActionStatus, LogError};
