use vstd::prelude::*;

pub mod action;
pub mod app;
pub mod cli;
pub mod progress;
pub mod pull_progress;
pub mod screen;
pub mod section_items;
pub mod sections;
pub mod text;
pub mod tui_state;
pub mod tui_types;
pub mod users;
pub mod web;
pub mod widget;

verus! {

} // verus!
