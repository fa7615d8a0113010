//! Terminal escape sequences used by the dashboard: clear-and-home,
//! one foreground color per channel kind, and the color reset.

use vstd::prelude::*;
use vstd::string::StringExecFns;

verus! {

/// Characters of the clear-screen-and-cursor-home sequence.
pub open spec fn clear_seq() -> Seq<char> {
    "\x1b[2J\x1b[H"@
}

/// Characters of the bright-red foreground sequence.
pub open spec fn red_seq() -> Seq<char> {
    "\x1b[91m"@
}

/// Characters of the bright-green foreground sequence.
pub open spec fn green_seq() -> Seq<char> {
    "\x1b[92m"@
}

/// Characters of the bright-yellow foreground sequence.
pub open spec fn yellow_seq() -> Seq<char> {
    "\x1b[93m"@
}

/// Characters of the bright-blue foreground sequence.
pub open spec fn blue_seq() -> Seq<char> {
    "\x1b[94m"@
}

/// Characters of the bright-purple foreground sequence.
pub open spec fn purple_seq() -> Seq<char> {
    "\x1b[95m"@
}

/// Characters of the bright-cyan foreground sequence.
pub open spec fn cyan_seq() -> Seq<char> {
    "\x1b[96m"@
}

/// Characters of the reset-attributes sequence.
pub open spec fn end_color_seq() -> Seq<char> {
    "\x1b[m"@
}

pub fn clear_terminal_string() -> (r: String)
    ensures
        r@ == clear_seq(),
{
    String::from_str("\x1b[2J\x1b[H")
}

pub fn red_text_terminal_string() -> (r: String)
    ensures
        r@ == red_seq(),
{
    String::from_str("\x1b[91m")
}

pub fn green_text_terminal_string() -> (r: String)
    ensures
        r@ == green_seq(),
{
    String::from_str("\x1b[92m")
}

pub fn yellow_text_terminal_string() -> (r: String)
    ensures
        r@ == yellow_seq(),
{
    String::from_str("\x1b[93m")
}

pub fn blue_text_terminal_string() -> (r: String)
    ensures
        r@ == blue_seq(),
{
    String::from_str("\x1b[94m")
}

pub fn purple_text_terminal_string() -> (r: String)
    ensures
        r@ == purple_seq(),
{
    String::from_str("\x1b[95m")
}

pub fn cyan_text_terminal_string() -> (r: String)
    ensures
        r@ == cyan_seq(),
{
    String::from_str("\x1b[96m")
}

pub fn end_color_terminal_string() -> (r: String)
    ensures
        r@ == end_color_seq(),
{
    String::from_str("\x1b[m")
}

} // verus!
