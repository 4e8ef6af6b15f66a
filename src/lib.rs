//! A text-mode browser for a repository's commit history: the list widget, the
//! diff line model, the views and the stack of views that drives them.

pub mod app;
pub mod commit_state;
pub mod diff;
pub mod git;
pub mod graph;
pub mod keys;
pub mod list_view;
pub mod log_state;
pub mod state;
