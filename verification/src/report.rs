//! The line that reports one call of the adder.

use vstd::prelude::*;

use crate::arith::{adder, wrapped_sum};
use crate::decimal::{decimal_text, to_decimal};

verus! {

/// The report of the call `adder(x, y)`: the word `application`, the call
/// with its two operands in decimal notation, an equals sign and the result
/// in decimal notation.
pub open spec fn report_text(x: int, y: int) -> Seq<char> {
    "application adder("@ + decimal_text(x) + ", "@ + decimal_text(y) + ") = "@
        + decimal_text(wrapped_sum(x, y))
}

/// Adds `x` and `y` and writes the line that reports the call, as in
/// `application adder(1, 2) = 3`.
pub fn report_line(x: i32, y: i32) -> (line: String)
    ensures
        line@ == report_text(x as int, y as int),
{
    let sum: i32 = adder(x, y);
    let mut line = String::from_str("application adder(");
    line.append(to_decimal(x).as_str());
    line.append(", ");
    line.append(to_decimal(y).as_str());
    line.append(") = ");
    line.append(to_decimal(sum).as_str());
    line
}

} // verus!
