//! Core logic of a desktop idleness watcher: an activity state machine that
//! tracks how long the user has kept away from keyboard and mouse, a frame
//! limiter that paces the render loop, a frame-rate statistics accumulator,
//! duration formatting, and text placement and line filling.
//!
//! All timestamps are nanoseconds read from a monotonic clock whose origin is
//! program start; the surrounding render loop reads the clock, feeds plain
//! values in, and performs the sleeping and drawing that the decisions here
//! call for.

pub mod activity;
pub mod duration_fmt;
pub mod fps_capper;
pub mod frame_stats;
pub mod layout;
