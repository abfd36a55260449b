//! Verified core of the worktree manager: git output parsers, the
//! application state machine and the decisions of the command reducer.
use vstd::prelude::*;

pub mod text;
pub mod domain;
pub mod git_repo;
pub mod model;
pub mod events;
pub mod run_loop;
pub mod listing;
pub mod layout;
pub mod status_view;
pub mod nav;
pub mod handlers;
pub mod dialogs;
pub mod reducer;
pub mod warp;
pub mod widgets;
pub mod screen;
pub mod laws;

verus! {

} // verus!
