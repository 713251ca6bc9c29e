//! A countdown to a chosen time of day, with drag-driven number spinners
//! for picking the target hour and minute.
pub mod countdown;
pub mod slider_number;
pub mod utils;
