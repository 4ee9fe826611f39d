//! The arithmetic behind a small firmware start-up: a 32-bit adder with a
//! fixed overflow policy, and the text of the line that reports its result.

pub mod arith;
pub mod decimal;
pub mod report;

pub use arith::adder;
pub use decimal::to_decimal;
pub use report::report_line;
