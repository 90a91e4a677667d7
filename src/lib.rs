//! State of a terminal tracker of TV show watch progress: the statuses a user
//! gives shows and seasons, the cursors over the show and season lists, the
//! app's modes, and how ticks, key presses, mouse events and detail lookups
//! change them.

pub mod app;
pub mod handler;
pub mod models;
pub mod selection;
pub mod status;
