//! A stopwatch that keeps its state in a text file.
//!
//! `start` appends a record of the current UTC instant to the file; `stop` reads the file
//! back, takes the last record in it as the start of the interval, and reports the time
//! that has passed since. Everything here is a function from plain values to plain values:
//! the caller reads the clock, reads and writes the file, and prints.

pub mod command;
pub mod decimal;
pub mod elapsed;
pub mod instant;
pub mod record;
pub mod session;
pub mod stamp;
pub mod start;
pub mod stop;
pub mod text;
