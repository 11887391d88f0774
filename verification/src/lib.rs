//! Reconciliation engine for a tree of symbolic-link mappings.
//!
//! A configured set of relative paths is expected to exist in the user's
//! home directory as symbolic links into a repository tree. The library
//! classifies the observed state of each path, decides what corrective
//! action to take, records the outcome of that action, and orders the
//! resulting report. All filesystem probing and mutation is performed by
//! the surrounding program, which hands the results in as plain values.

pub mod context;
pub mod laws;
pub mod link;
pub mod order;
pub mod probe;
pub mod state;

pub use context::Context;
pub use link::ApplyAction;
pub use link::ApplyEvent;
pub use link::CreateEvent;
pub use link::Link;
pub use probe::FsProbe;
pub use state::PathState;
