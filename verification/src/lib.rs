//! Tick-driven control of small banks of digital output lines.
//!
//! A bank owns one wake tick and one [`units::Pulse`] per line. Once per tick
//! [`units::std_update`] decides which lines are due, what level each of them
//! takes and when it is due next; [`trigger`] turns the tick itself and user
//! commands into changes of that state. The library only decides: it hands
//! the levels to write back to its caller, who owns the physical lines.

pub mod counter;
pub mod trigger;
pub mod units;
