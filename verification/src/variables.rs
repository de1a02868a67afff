//! Environment variables: which names and values the environment takes.
//!
//! Setting or removing a variable under another name, or setting a value
//! that holds the character NUL, is refused by the operating system. The
//! shell's operations on variables never fail, so they leave such a request
//! undone.

use crate::text::chars_of;
use vstd::prelude::*;

verus! {

/// `true` for the character NUL.
pub open spec fn is_nul(c: char) -> bool {
    c as u32 == 0
}

/// `true` when `name` can name a variable: it is not empty and holds neither
/// `=` nor NUL.
pub open spec fn is_variable_name(name: Seq<char>) -> bool {
    &&& name.len() > 0
    &&& forall|i: int| 0 <= i < name.len() ==> name[i] != '=' && !is_nul(#[trigger] name[i])
}

/// `true` when `value` can be the value of a variable: it holds no NUL.
pub open spec fn is_variable_value(value: Seq<char>) -> bool {
    forall|i: int| 0 <= i < value.len() ==> !is_nul(#[trigger] value[i])
}

/// Tells whether `c` may stand in the name of a variable.
fn name_char(c: char) -> (b: bool)
    ensures
        b == (c != '=' && !is_nul(c)),
{
    c != '=' && c as u32 != 0
}

/// Tells whether `c` may stand in the value of a variable.
fn value_char(c: char) -> (b: bool)
    ensures
        b == !is_nul(c),
{
    c as u32 != 0
}

/// Tells whether `name` can name a variable.
pub fn can_name_variable(name: &str) -> (b: bool)
    ensures
        b == is_variable_name(name@),
{
    let chars = chars_of(name);
    if chars.len() == 0 {
        return false;
    }
    let mut i: usize = 0;
    while i < chars.len()
        invariant
            chars@ == name@,
            i <= chars.len(),
            forall|j: int| 0 <= j < i ==> name@[j] != '=' && !is_nul(#[trigger] name@[j]),
        decreases chars.len() - i,
    {
        if !name_char(chars[i]) {
            return false;
        }
        i = i + 1;
    }
    true
}

/// Tells whether `value` can be the value of a variable.
pub fn can_be_value(value: &str) -> (b: bool)
    ensures
        b == is_variable_value(value@),
{
    let chars = chars_of(value);
    let mut i: usize = 0;
    while i < chars.len()
        invariant
            chars@ == value@,
            i <= chars.len(),
            forall|j: int| 0 <= j < i ==> !is_nul(#[trigger] value@[j]),
        decreases chars.len() - i,
    {
        if !value_char(chars[i]) {
            return false;
        }
        i = i + 1;
    }
    true
}

} // verus!
