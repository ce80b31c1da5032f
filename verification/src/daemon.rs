//! The process that runs in the background: reading its id back from the
//! file that it left.

use crate::decimal::{parse_i32, parse_signed};
use crate::text::{chars_of, trim, trimmed};
use vstd::prelude::*;

verus! {

/// The process id that `text` spells.
pub fn pid_of(text: &str) -> (r: Option<i32>)
    ensures
        r == parse_signed(text@),
{
    parse_i32(&chars_of(text))
}

/// The process id that the content of a pid file holds: the number that it
/// spells once the white space around it is taken off.
pub fn parse_pid(contents: &str) -> (r: Option<i32>)
    ensures
        r == parse_signed(trimmed(contents@)),
{
    pid_of(trim(contents).as_str())
}

} // verus!
