//! Paths as text: the pieces between `/`, and the name of the file or
//! directory that a path ends in.

use crate::text::chars_of;
use vstd::prelude::*;
use vstd::string::StrSliceExecFns;
use vstd::string::StringExecFns;

verus! {

/// Where the piece of `path` that ends at `end` starts: behind the last `/`
/// before `end`, or at 0 where there is none.
pub open spec fn piece_start(path: Seq<char>, end: int) -> int
    decreases end,
{
    if end <= 0 {
        0
    } else if path[end - 1] == '/' {
        end
    } else {
        piece_start(path, end - 1)
    }
}

/// `true` for the piece `.`, which stands for the directory itself.
pub open spec fn is_dot(piece: Seq<char>) -> bool {
    piece.len() == 1 && piece[0] == '.'
}

/// `true` for the piece `..`, which stands for the parent directory.
pub open spec fn is_dot_dot(piece: Seq<char>) -> bool {
    piece.len() == 2 && piece[0] == '.' && piece[1] == '.'
}

/// The last piece of `path` before `end` that is neither empty nor `.`;
/// `None` where there is no such piece or it is `..`.
pub open spec fn component_before(path: Seq<char>, end: int) -> Option<Seq<char>>
    decreases end,
    via component_before_decreases
{
    if end <= 0 {
        None
    } else {
        let start = piece_start(path, end);
        let piece = path.subrange(start, end);
        if piece.len() == 0 || is_dot(piece) {
            if start <= 0 {
                None
            } else {
                component_before(path, start - 1)
            }
        } else if is_dot_dot(piece) {
            None
        } else {
            Some(piece)
        }
    }
}

#[via_fn]
proof fn component_before_decreases(path: Seq<char>, end: int) {
    if end > 0 {
        lemma_piece_start_bounds(path, end);
    }
}

/// The name that `path` ends in: its last piece once every `/` and `/.` at
/// its end is dropped; `None` where nothing is left or the piece is `..`.
pub open spec fn final_component(path: Seq<char>) -> Option<Seq<char>> {
    component_before(path, path.len() as int)
}

/// A piece starts within its path, at or before its end, and holds no `/`.
proof fn lemma_piece_start_bounds(path: Seq<char>, end: int)
    requires
        0 <= end,
    ensures
        0 <= piece_start(path, end) <= end,
        forall|i: int| piece_start(path, end) <= i < end ==> path[i] != '/',
    decreases end,
{
    if end > 0 && path[end - 1] != '/' {
        lemma_piece_start_bounds(path, end - 1);
    }
}

/// The name that a path ends in is not empty, holds no `/`, and is neither
/// `.` nor `..`.
pub proof fn law_a_name_is_one_plain_piece(path: Seq<char>)
    ensures
        final_component(path) matches Some(name) ==> {
            &&& name.len() > 0
            &&& forall|i: int| 0 <= i < name.len() ==> name[i] != '/'
            &&& !is_dot(name)
            &&& !is_dot_dot(name)
        },
{
    lemma_component_is_one_plain_piece(path, path.len() as int);
}

proof fn lemma_component_is_one_plain_piece(path: Seq<char>, end: int)
    requires
        end <= path.len(),
    ensures
        component_before(path, end) matches Some(name) ==> {
            &&& name.len() > 0
            &&& forall|i: int| 0 <= i < name.len() ==> name[i] != '/'
            &&& !is_dot(name)
            &&& !is_dot_dot(name)
        },
    decreases end,
{
    if end > 0 {
        lemma_piece_start_bounds(path, end);
        let start = piece_start(path, end);
        let piece = path.subrange(start, end);
        if piece.len() == 0 || is_dot(piece) {
            if start > 0 {
                lemma_component_is_one_plain_piece(path, start - 1);
            }
        }
    }
}

/// The name of the file or directory that `path` ends in.
pub fn file_name(path: &str) -> (name: Option<String>)
    ensures
        name.deep_view() == final_component(path@),
{
    let chars = chars_of(path);
    let mut end: usize = chars.len();
    while end > 0
        invariant
            chars@ == path@,
            end <= chars.len(),
            final_component(path@) == component_before(path@, end as int),
        decreases end,
    {
        let mut start: usize = end;
        while start > 0 && !is_slash(chars[start - 1])
            invariant
                chars@ == path@,
                start <= end <= chars.len(),
                piece_start(path@, end as int) == piece_start(path@, start as int),
            decreases start,
        {
            start = start - 1;
        }
        let dot = end - start == 1 && is_dot_char(chars[start]);
        let dot_dot = end - start == 2 && is_dot_char(chars[start]) && is_dot_char(
            chars[start + 1],
        );
        if end == start || dot {
            if start == 0 {
                return None;
            }
            end = start - 1;
        } else if dot_dot {
            return None;
        } else {
            return Some(String::from_str(path.substring_char(start, end)));
        }
    }
    None
}

/// Tells whether `c` is the separator `/`.
fn is_slash(c: char) -> (b: bool)
    ensures
        b == (c == '/'),
{
    c == '/'
}

/// Tells whether `c` is the character `.`.
fn is_dot_char(c: char) -> (b: bool)
    ensures
        b == (c == '.'),
{
    c == '.'
}

} // verus!
