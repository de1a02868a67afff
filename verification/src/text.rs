//! Character-level helpers: whitespace, splitting a line into words, joining
//! words back into a line.
//!
//! Everything here is stated over `Seq<char>`, the view of `str` and `String`.

use vstd::prelude::*;
use vstd::string::StrSliceExecFns;
use vstd::string::StringExecFns;

verus! {

/// The characters with the Unicode property `White_Space`.
pub open spec fn is_whitespace(c: char) -> bool {
    let n = c as u32;
    ||| 0x09 <= n <= 0x0D
    ||| n == 0x20
    ||| n == 0x85
    ||| n == 0xA0
    ||| n == 0x1680
    ||| 0x2000 <= n <= 0x200A
    ||| n == 0x2028
    ||| n == 0x2029
    ||| n == 0x202F
    ||| n == 0x205F
    ||| n == 0x3000
}

/// The first index at or after `from` that holds whitespace, or `s.len()`
/// when there is none: the end of the word that starts at `from`.
pub open spec fn word_end(s: Seq<char>, from: int) -> int
    decreases s.len() - from,
{
    if from < 0 || from >= s.len() || is_whitespace(s[from]) {
        from
    } else {
        word_end(s, from + 1)
    }
}

/// The words of `s` that start at or after `from`, in order. A word is a
/// maximal run of characters that are not whitespace.
pub open spec fn words_from(s: Seq<char>, from: int) -> Seq<Seq<char>>
    decreases s.len() - from,
    via words_from_decreases
{
    if from < 0 || from >= s.len() {
        Seq::empty()
    } else if is_whitespace(s[from]) {
        words_from(s, from + 1)
    } else {
        seq![s.subrange(from, word_end(s, from))] + words_from(s, word_end(s, from))
    }
}

#[via_fn]
proof fn words_from_decreases(s: Seq<char>, from: int) {
    if 0 <= from < s.len() && !is_whitespace(s[from]) {
        lemma_word_end_bounds(s, from + 1);
    }
}

/// The words of `s`: what is left of it once it is cut at every run of
/// whitespace.
pub open spec fn words(s: Seq<char>) -> Seq<Seq<char>> {
    words_from(s, 0)
}

/// `parts` joined into one line, with a single space between neighbours.
pub open spec fn join_spaced(parts: Seq<Seq<char>>) -> Seq<char>
    decreases parts.len(),
{
    if parts.len() == 0 {
        Seq::empty()
    } else if parts.len() == 1 {
        parts[0]
    } else {
        join_spaced(parts.drop_last()) + seq![' '] + parts.last()
    }
}

/// `true` when no character of `s` is whitespace.
pub open spec fn has_no_whitespace(s: Seq<char>) -> bool {
    forall|i: int| 0 <= i < s.len() ==> !is_whitespace(#[trigger] s[i])
}

/// `true` when every character of `s` is whitespace.
pub open spec fn is_blank(s: Seq<char>) -> bool {
    forall|i: int| 0 <= i < s.len() ==> is_whitespace(#[trigger] s[i])
}

/// A word's end lies between its start and the end of the text; nothing in
/// between is whitespace, and the end itself is whitespace or the end of the
/// text.
proof fn lemma_word_end_bounds(s: Seq<char>, from: int)
    requires
        0 <= from <= s.len(),
    ensures
        from <= word_end(s, from) <= s.len(),
        forall|i: int| from <= i < word_end(s, from) ==> !is_whitespace(#[trigger] s[i]),
        word_end(s, from) < s.len() ==> is_whitespace(s[word_end(s, from)]),
    decreases s.len() - from,
{
    if from < s.len() && !is_whitespace(s[from]) {
        lemma_word_end_bounds(s, from + 1);
    }
}

/// From `from` on, every word is non-empty and free of whitespace.
proof fn lemma_words_are_solid(s: Seq<char>, from: int)
    requires
        0 <= from <= s.len(),
    ensures
        forall|k: int|
            0 <= k < words_from(s, from).len() ==> {
                &&& (#[trigger] words_from(s, from)[k]).len() > 0
                &&& has_no_whitespace(words_from(s, from)[k])
            },
    decreases s.len() - from,
{
    if from < s.len() {
        if is_whitespace(s[from]) {
            lemma_words_are_solid(s, from + 1);
            assert(words_from(s, from) == words_from(s, from + 1));
        } else {
            let end = word_end(s, from);
            lemma_word_end_bounds(s, from + 1);
            lemma_word_end_bounds(s, from);
            lemma_words_are_solid(s, end);
            let head = s.subrange(from, end);
            let rest = words_from(s, end);
            assert forall|k: int| 0 <= k < words_from(s, from).len() implies {
                &&& (#[trigger] words_from(s, from)[k]).len() > 0
                &&& has_no_whitespace(words_from(s, from)[k])
            } by {
                if k == 0 {
                    assert(has_no_whitespace(head));
                } else {
                    assert(words_from(s, from)[k] == rest[k - 1]);
                }
            }
        }
    }
}

/// From `from` on, a text has no words exactly when all that is left of it
/// is whitespace.
proof fn lemma_no_words_iff_blank(s: Seq<char>, from: int)
    requires
        0 <= from <= s.len(),
    ensures
        words_from(s, from).len() == 0 <==> (forall|i: int|
            from <= i < s.len() ==> is_whitespace(#[trigger] s[i])),
    decreases s.len() - from,
{
    if from < s.len() {
        if is_whitespace(s[from]) {
            lemma_no_words_iff_blank(s, from + 1);
        }
    }
}

/// A text has no words exactly when it is blank.
pub proof fn law_blank_has_no_words(s: Seq<char>)
    ensures
        words(s).len() == 0 <==> is_blank(s),
{
    lemma_no_words_iff_blank(s, 0);
}

/// Every word of a text is non-empty and free of whitespace.
pub proof fn law_words_are_solid(s: Seq<char>)
    ensures
        forall|k: int|
            0 <= k < words(s).len() ==> {
                &&& (#[trigger] words(s)[k]).len() > 0
                &&& has_no_whitespace(words(s)[k])
            },
{
    lemma_words_are_solid(s, 0);
}

/// Text put behind `x` changes no word end within `x`, as long as that text
/// starts with whitespace or is empty.
proof fn lemma_word_end_with_suffix(x: Seq<char>, y: Seq<char>, from: int)
    requires
        0 <= from <= x.len(),
        y.len() == 0 || is_whitespace(y[0]),
    ensures
        word_end(x + y, from) == word_end(x, from),
    decreases x.len() - from,
{
    if from < x.len() && !is_whitespace(x[from]) {
        lemma_word_end_with_suffix(x, y, from + 1);
    }
}

/// Behind `x`, the word ends of `x + y` are those of `y`, moved by the
/// length of `x`.
proof fn lemma_word_end_after_prefix(x: Seq<char>, y: Seq<char>, from: int)
    requires
        0 <= from <= y.len(),
    ensures
        word_end(x + y, x.len() + from) == x.len() + word_end(y, from),
    decreases y.len() - from,
{
    if from < y.len() && !is_whitespace(y[from]) {
        lemma_word_end_after_prefix(x, y, from + 1);
    }
}

/// Behind `x`, the words of `x + y` are those of `y`.
proof fn lemma_words_after_prefix(x: Seq<char>, y: Seq<char>, from: int)
    requires
        0 <= from <= y.len(),
    ensures
        words_from(x + y, x.len() + from) == words_from(y, from),
    decreases y.len() - from,
{
    if from < y.len() {
        if is_whitespace(y[from]) {
            lemma_words_after_prefix(x, y, from + 1);
        } else {
            let end = word_end(y, from);
            lemma_word_end_bounds(y, from + 1);
            lemma_word_end_after_prefix(x, y, from);
            lemma_words_after_prefix(x, y, end);
            assert((x + y).subrange(x.len() + from, x.len() + end) =~= y.subrange(from, end));
        }
    }
}

/// Where `y` starts with whitespace or is empty, the words of `x + y` are
/// those of `x` followed by those of `y`.
proof fn lemma_words_of_concatenation(x: Seq<char>, y: Seq<char>, from: int)
    requires
        0 <= from <= x.len(),
        y.len() == 0 || is_whitespace(y[0]),
    ensures
        words_from(x + y, from) == words_from(x, from) + words(y),
    decreases x.len() - from,
{
    if from < x.len() {
        if is_whitespace(x[from]) {
            lemma_words_of_concatenation(x, y, from + 1);
        } else {
            let end = word_end(x, from);
            lemma_word_end_bounds(x, from + 1);
            lemma_word_end_with_suffix(x, y, from);
            lemma_words_of_concatenation(x, y, end);
            assert((x + y).subrange(from, end) =~= x.subrange(from, end));
        }
    } else {
        lemma_words_after_prefix(x, y, 0);
    }
}

/// A text without whitespace that is not empty is its own single word.
proof fn lemma_solid_text_is_one_word(w: Seq<char>)
    requires
        w.len() > 0,
        has_no_whitespace(w),
    ensures
        words(w) == seq![w],
{
    lemma_word_end_bounds(w, 0);
    assert(w.subrange(0, word_end(w, 0)) =~= w);
    assert(words_from(w, w.len() as int) =~= Seq::<Seq<char>>::empty());
}

/// `true` when every text of `parts` is non-empty and free of whitespace.
pub open spec fn all_solid(parts: Seq<Seq<char>>) -> bool {
    forall|k: int|
        0 <= k < parts.len() ==> (#[trigger] parts[k]).len() > 0 && has_no_whitespace(parts[k])
}

/// Joining is undone by splitting: the words of a line that was joined from
/// texts without whitespace, none of them empty, are those texts.
pub proof fn law_joined_words_are_found_again(parts: Seq<Seq<char>>)
    requires
        all_solid(parts),
    ensures
        words(join_spaced(parts)) == parts,
    decreases parts.len(),
{
    if parts.len() == 1 {
        lemma_solid_text_is_one_word(parts[0]);
    } else if parts.len() > 1 {
        let front = parts.drop_last();
        let last = parts.last();
        assert(all_solid(front));
        law_joined_words_are_found_again(front);
        let tail = seq![' '] + last;
        assert(join_spaced(parts) =~= join_spaced(front) + tail);
        lemma_words_of_concatenation(join_spaced(front), tail, 0);
        lemma_solid_text_is_one_word(last);
        lemma_words_after_prefix(seq![' '], last, 0);
    }
}

/// Splitting a line and joining its words again keeps the words: only the
/// whitespace between them changes.
pub proof fn law_words_survive_joining(line: Seq<char>)
    ensures
        words(join_spaced(words(line))) == words(line),
{
    law_words_are_solid(line);
    law_joined_words_are_found_again(words(line));
}

/// Tells whether `c` is whitespace.
pub fn char_is_whitespace(c: char) -> (b: bool)
    ensures
        b == is_whitespace(c),
{
    let n: u32 = c as u32;
    (0x09 <= n && n <= 0x0D) || n == 0x20 || n == 0x85 || n == 0xA0 || n == 0x1680 || (0x2000 <= n
        && n <= 0x200A) || n == 0x2028 || n == 0x2029 || n == 0x202F || n == 0x205F || n == 0x3000
}

/// The characters of `s`, in order.
pub fn chars_of(s: &str) -> (chars: Vec<char>)
    ensures
        chars@ == s@,
{
    let mut chars: Vec<char> = Vec::new();
    for c in it: s.chars()
        invariant
            chars@ == it.seq().take(it.index() as int),
    {
        chars.push(c);
    }
    chars
}

/// Splits `line` at whitespace into its words.
pub fn split_whitespace(line: &str) -> (argv: Vec<String>)
    ensures
        argv.deep_view() == words(line@),
{
    let chars = chars_of(line);
    let n: usize = chars.len();
    let mut argv: Vec<String> = Vec::new();
    let mut i: usize = 0;
    while i < n
        invariant
            chars@ == line@,
            n == chars.len(),
            i <= n,
            words(line@) == argv.deep_view() + words_from(line@, i as int),
        decreases n - i,
    {
        if char_is_whitespace(chars[i]) {
            i = i + 1;
        } else {
            let start: usize = i;
            while i < n && !char_is_whitespace(chars[i])
                invariant
                    chars@ == line@,
                    n == chars.len(),
                    start <= i <= n,
                    start < n,
                    word_end(line@, start as int) == word_end(line@, i as int),
                decreases n - i,
            {
                i = i + 1;
            }
            argv.push(String::from_str(line.substring_char(start, i)));
        }
    }
    argv
}

/// Joins `parts` into one line, with a single space between neighbours.
pub fn join_with_spaces(parts: &Vec<String>) -> (line: String)
    ensures
        line@ == join_spaced(parts.deep_view()),
{
    let mut line = String::new();
    let mut i: usize = 0;
    while i < parts.len()
        invariant
            i <= parts.len(),
            line@ == join_spaced(parts.deep_view().take(i as int)),
        decreases parts.len() - i,
    {
        if i > 0 {
            line.append(" ");
        }
        line.append(parts[i].as_str());
        proof {
            reveal_strlit(" ");
            let joined = parts.deep_view().take(i as int + 1);
            assert(joined.drop_last() =~= parts.deep_view().take(i as int));
        }
        i = i + 1;
    }
    proof {
        assert(parts.deep_view().take(parts.len() as int) =~= parts.deep_view());
    }
    line
}

} // verus!
