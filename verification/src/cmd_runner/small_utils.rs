//! The rules of the builtins `cd`, `exit` and `clr`: where `cd` goes without
//! an argument, with which code `exit` ends the process, and what `clr`
//! writes.

use crate::decimal::parse_decimal_i32;
use crate::decimal::parse_i32;
use vstd::prelude::*;
use vstd::string::StringExecFns;

verus! {

/// The code with which `exit` ends the process: its first argument read as
/// an integer, and 0 when there is none or it cannot be read.
pub open spec fn exit_status(args: Seq<Seq<char>>) -> i32 {
    if args.len() >= 2 {
        match parse_i32(args[1]) {
            Some(code) => code,
            None => 0,
        }
    } else {
        0
    }
}

/// The directory that `cd` without an argument goes to: the home directory,
/// or `/` when no home directory is known.
pub open spec fn home_or_root(home: Option<Seq<char>>) -> Seq<char> {
    match home {
        Some(dir) => dir,
        None => "/"@,
    }
}

/// What `clr` writes to the terminal: the sequence that erases the screen,
/// then the one that moves the cursor to the top left corner.
pub open spec fn clear_screen() -> Seq<char> {
    "\x1B[2J\x1B[H"@
}

/// The code with which `exit`, called with the argument vector `args`, ends
/// the process.
pub fn exit_code(args: &Vec<String>) -> (code: i32)
    ensures
        code == exit_status(args.deep_view()),
{
    if args.len() >= 2 {
        match parse_decimal_i32(args[1].as_str()) {
            Some(code) => code,
            None => 0,
        }
    } else {
        0
    }
}

/// The directory that `cd` without an argument goes to. `home` is the home
/// directory, where one is known.
pub fn cd_home(home: Option<String>) -> (target: String)
    ensures
        target@ == home_or_root(home.deep_view()),
{
    match home {
        Some(dir) => dir,
        None => String::from_str("/"),
    }
}

/// What `clr` writes to the terminal.
pub fn clear_sequence() -> (sequence: &'static str)
    ensures
        sequence@ == clear_screen(),
{
    "\x1B[2J\x1B[H"
}

} // verus!
