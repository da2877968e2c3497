//! Duetime: the verified core of a terminal planner with a task table, an
//! inbox, an agenda and countdown timers.

pub mod keys;
pub mod selection;
pub mod move_items;
pub mod text;
pub mod search;
pub mod clock;
pub mod stopwatch;
pub mod countdown;
pub mod models;
pub mod types;
pub mod suggestions;
pub mod text_input;
pub mod timers;
pub mod dates;
pub mod agenda;
pub mod tasks;
pub mod task_rows;
pub mod inbox;
pub mod lists;
pub mod app;
pub mod task_actions;
pub mod inbox_actions;
pub mod timer_actions;
pub mod agenda_actions;
pub mod agenda_keys;
pub mod timer_keys;
pub mod inbox_keys;
pub mod task_keys;
pub mod task_popup_keys;
pub mod keys_help;
pub mod events;
