//! Commit hooks, the deferred-event queue, and the panels around a
//! hook-gated commit: a list panel of status entries with a selection, and
//! the commit-message dialog.

pub mod changes;
pub mod commit;
pub mod hooks;
pub mod keys;
pub mod queue;
