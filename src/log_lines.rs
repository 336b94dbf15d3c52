//! The diagnostic lines that the counter's operations ask the host to log.

use vstd::prelude::*;
use vstd::string::StringExecFns;
use crate::decimal::{decimal_of, decimal_string};

verus! {

/// The line logged after a raise, naming the new value.
pub open spec fn added_line(v: int) -> Seq<char> {
    "Added money to "@ + decimal_of(v)
}

/// The line logged after a decrease, naming the new value.
pub open spec fn changed_line(v: int) -> Seq<char> {
    "Value after change "@ + decimal_of(v)
}

/// The warning logged after every raise and decrease.
pub open spec fn overflow_warning() -> Seq<char> {
    "Make sure you don't overflow, my friend."@
}

/// The line logged after clearing.
pub open spec fn reset_line() -> Seq<char> {
    "Reset Change to zero"@
}

/// `prefix` followed by the decimal form of `v`.
fn line_with_value(prefix: &str, v: i32) -> (r: String)
    ensures
        r@ == prefix@ + decimal_of(v as int),
{
    let mut s = String::from_str(prefix);
    let digits = decimal_string(v);
    s.append(digits.as_str());
    s
}

/// The line logged after a raise to `v`.
pub fn added_message(v: i32) -> (r: String)
    ensures
        r@ == added_line(v as int),
{
    line_with_value("Added money to ", v)
}

/// The line logged after a decrease to `v`.
pub fn changed_message(v: i32) -> (r: String)
    ensures
        r@ == changed_line(v as int),
{
    line_with_value("Value after change ", v)
}

/// The warning logged after every raise and decrease.
pub fn overflow_warning_message() -> (r: String)
    ensures
        r@ == overflow_warning(),
{
    String::from_str("Make sure you don't overflow, my friend.")
}

/// The line logged after clearing.
pub fn reset_message() -> (r: String)
    ensures
        r@ == reset_line(),
{
    String::from_str("Reset Change to zero")
}

} // verus!
