//! Scheduling of power-off actions: one-shot at a clock time, or weekly on a
//! weekday at a time of day.

pub mod calculator;
pub mod countdown;
pub mod editor;
pub mod registry;
pub mod schedule;
pub mod scheduler;
pub mod text;
pub mod time_of_day;
pub mod weekday;
