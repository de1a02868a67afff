//! Command resolution: from a line of input to what the shell does with it.
//!
//! A line is cut into words at whitespace. If the first word is an alias, the
//! alias's command takes its place, as one word and once only: the command is
//! neither cut into words nor looked up again. The first word then names a
//! builtin, or the whole line goes to an external program.
//!
//! The line that an external program is given is made of the words, with one
//! space between neighbours. It holds the words that were typed, after the
//! alias's command where there is one; the whitespace that stood between
//! them is not kept.

use crate::cmd_runner::aliases::AliasTable;
use crate::text::is_blank;
use crate::text::join_spaced;
use crate::text::join_with_spaces;
use crate::text::law_blank_has_no_words;
use crate::text::law_words_survive_joining;
use crate::text::split_whitespace;
use crate::text::words;
use vstd::prelude::*;
use vstd::string::StringExecFns;

pub mod aliases;
pub mod small_utils;

verus! {

/// The commands that the shell runs itself.
#[derive(Clone, Copy, Debug, PartialEq, Eq, Structural)]
pub enum Builtin {
    /// `cd`: change the working directory.
    Cd,
    /// `exit`: leave the shell.
    Exit,
    /// `clr`: clear the screen.
    Clr,
}

/// What a line of input resolves to.
#[derive(Debug)]
pub enum Dispatch {
    /// The line holds no word: there is nothing to do.
    Nothing,
    /// The line calls a builtin. `args` is the whole argument vector, the
    /// builtin's own name first.
    Builtin { builtin: Builtin, args: Vec<String> },
    /// The line is handed, as `command`, to an external program.
    External { command: String },
}

/// The view of a `Dispatch`.
pub ghost enum DispatchView {
    Nothing,
    Builtin { builtin: Builtin, args: Seq<Seq<char>> },
    External { command: Seq<char> },
}

impl View for Dispatch {
    type V = DispatchView;

    open spec fn view(&self) -> DispatchView {
        match self {
            Dispatch::Nothing => DispatchView::Nothing,
            Dispatch::Builtin { builtin, args } => DispatchView::Builtin {
                builtin: *builtin,
                args: args.deep_view(),
            },
            Dispatch::External { command } => DispatchView::External { command: command@ },
        }
    }
}

/// The builtin that `word` names, if it names one.
pub open spec fn builtin_named(word: Seq<char>) -> Option<Builtin> {
    if word == "cd"@ {
        Some(Builtin::Cd)
    } else if word == "exit"@ {
        Some(Builtin::Exit)
    } else if word == "clr"@ {
        Some(Builtin::Clr)
    } else {
        None
    }
}

/// `argv` with its first word replaced by the command that `table` holds for
/// it, if it holds one. The words after the first stay as they are.
pub open spec fn substitute_alias(
    table: Map<Seq<char>, Seq<char>>,
    argv: Seq<Seq<char>>,
) -> Seq<Seq<char>> {
    if argv.len() > 0 && table.contains_key(argv[0]) {
        argv.update(0, table[argv[0]])
    } else {
        argv
    }
}

/// What `line` resolves to under the aliases of `table`.
pub open spec fn resolve(table: Map<Seq<char>, Seq<char>>, line: Seq<char>) -> DispatchView {
    let argv = substitute_alias(table, words(line));
    if argv.len() == 0 {
        DispatchView::Nothing
    } else {
        match builtin_named(argv[0]) {
            Some(builtin) => DispatchView::Builtin { builtin, args: argv },
            None => DispatchView::External { command: join_spaced(argv) },
        }
    }
}

/// The builtin that `word` names, if it names one.
pub fn find_builtin(word: &String) -> (found: Option<Builtin>)
    ensures
        found == builtin_named(word@),
{
    if *word == String::from_str("cd") {
        Some(Builtin::Cd)
    } else if *word == String::from_str("exit") {
        Some(Builtin::Exit)
    } else if *word == String::from_str("clr") {
        Some(Builtin::Clr)
    } else {
        None
    }
}

/// Resolves `input` under the aliases of `table`.
pub fn handle_builtin(table: &AliasTable, input: &str) -> (dispatch: Dispatch)
    ensures
        dispatch@ == resolve(table@, input@),
{
    let mut argv = split_whitespace(input);
    if argv.len() == 0 {
        return Dispatch::Nothing;
    }
    let ghost typed = argv.deep_view();
    match aliases::get(table, argv[0].as_str()) {
        Some(command) => {
            argv[0] = command;
            assert(argv.deep_view() =~= typed.update(0, table@[typed[0]]));
        },
        None => {},
    }
    match find_builtin(&argv[0]) {
        Some(builtin) => Dispatch::Builtin { builtin, args: argv },
        None => Dispatch::External { command: join_with_spaces(&argv) },
    }
}

/// An alias is substituted once. Where the first word of `line` is an alias,
/// what is dispatched starts with the alias's command as it stands, also
/// where that command is itself the name of an alias, and the words after
/// the first are those of the line.
pub proof fn law_alias_is_substituted_once(table: Map<Seq<char>, Seq<char>>, line: Seq<char>)
    requires
        words(line).len() > 0,
        table.contains_key(words(line)[0]),
    ensures
        match resolve(table, line) {
            DispatchView::Nothing => false,
            DispatchView::Builtin { builtin, args } => {
                &&& builtin_named(table[words(line)[0]]) == Some(builtin)
                &&& args.len() == words(line).len()
                &&& args[0] == table[words(line)[0]]
                &&& args.skip(1) == words(line).skip(1)
            },
            DispatchView::External { command } => {
                &&& builtin_named(table[words(line)[0]]) is None
                &&& command == join_spaced(words(line).update(0, table[words(line)[0]]))
            },
        },
{
    let argv = words(line);
    assert(substitute_alias(table, argv).skip(1) =~= argv.skip(1));
}

/// A line whose first word is no alias is dispatched as it was typed.
pub proof fn law_other_lines_are_untouched(table: Map<Seq<char>, Seq<char>>, line: Seq<char>)
    requires
        words(line).len() > 0,
        !table.contains_key(words(line)[0]),
    ensures
        match resolve(table, line) {
            DispatchView::Nothing => false,
            DispatchView::Builtin { builtin, args } => {
                &&& builtin_named(words(line)[0]) == Some(builtin)
                &&& args == words(line)
            },
            DispatchView::External { command } => {
                &&& builtin_named(words(line)[0]) is None
                &&& command == join_spaced(words(line))
            },
        },
{
}

/// An external command that came of no alias has the words that were
/// typed: only the whitespace between them has become single spaces.
pub proof fn law_external_command_has_the_typed_words(
    table: Map<Seq<char>, Seq<char>>,
    line: Seq<char>,
)
    requires
        words(line).len() > 0,
        !table.contains_key(words(line)[0]),
    ensures
        resolve(table, line) matches DispatchView::External { command } ==> words(command)
            == words(line),
{
    law_words_survive_joining(line);
}

/// A line resolves to nothing exactly when it is blank.
pub proof fn law_blank_lines_do_nothing(table: Map<Seq<char>, Seq<char>>, line: Seq<char>)
    ensures
        resolve(table, line) is Nothing <==> is_blank(line),
{
    law_blank_has_no_words(line);
}

} // verus!
