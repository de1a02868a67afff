//! The operations that the shell offers to scripts, on plain values.
//!
//! The aliases live in a table that the caller owns and hands in: no
//! operation keeps hold of it beyond its own call.

use crate::cmd_runner::aliases;
use crate::cmd_runner::aliases::listing;
use crate::cmd_runner::aliases::lookup;
use crate::cmd_runner::aliases::order_after_add;
use crate::cmd_runner::aliases::AliasTable;
use crate::cmd_runner::handle_builtin;
use crate::cmd_runner::resolve;
use crate::cmd_runner::Dispatch;
use crate::path::file_name;
use crate::path::final_component;
use crate::style::bold;
use crate::style::foreground;
use crate::style::low_byte;
use crate::style::render_bold;
use crate::style::render_foreground;
use vstd::prelude::*;
use vstd::string::StringExecFns;

verus! {

/// Adds the alias `name` for `command`, replacing any earlier command of that
/// name.
pub fn alias_add(table: &mut AliasTable, name: &str, command: &str)
    ensures
        final(table)@ == old(table)@.insert(name@, command@),
        final(table).order() == order_after_add(old(table).order(), name@),
{
    aliases::add(table, name, command);
}

/// The command of the alias `name`, if there is one.
pub fn alias_get(table: &AliasTable, name: &str) -> (command: Option<String>)
    ensures
        command.deep_view() == lookup(table@, name@),
{
    aliases::get(table, name)
}

/// Removes the alias `name`, if there is one.
pub fn alias_remove(table: &mut AliasTable, name: &str)
    ensures
        final(table)@ == old(table)@.remove(name@),
        final(table).order() == old(table).order().remove_value(name@),
{
    aliases::remove(table, name);
}

/// The aliases as pairs of name and command, in the order of
/// `table.order()`, which holds each name of the table once.
pub fn alias_list(table: &AliasTable) -> (pairs: Vec<(String, String)>)
    ensures
        pairs.deep_view() == listing(table@, table.order()),
        table.order().no_duplicates(),
        table.order().to_set() == table@.dom(),
{
    aliases::list(table)
}

/// Removes every alias.
pub fn alias_clear(table: &mut AliasTable)
    ensures
        final(table)@ == Map::<Seq<char>, Seq<char>>::empty(),
        final(table).order() == Seq::<Seq<char>>::empty(),
{
    aliases::clear(table);
}

/// Resolves the line `command` under the aliases of `table`: the builtin to
/// run, the external command to start, or nothing.
pub fn run_command(table: &AliasTable, command: String) -> (dispatch: Dispatch)
    ensures
        dispatch@ == resolve(table@, command@),
{
    handle_builtin(table, command.as_str())
}

/// `text` in the colour whose red, green and blue are the low eight bits of
/// `r`, `g` and `b`.
pub fn set_color(text: String, r: i64, g: i64, b: i64) -> (styled: String)
    ensures
        styled@ == foreground(text@, low_byte(r), low_byte(g), low_byte(b)),
{
    let red: u8 = #[verifier::truncate] (r as u8);
    let green: u8 = #[verifier::truncate] (g as u8);
    let blue: u8 = #[verifier::truncate] (b as u8);
    assert((r as u8) as int == (r as int) % 256) by (bit_vector);
    assert((g as u8) as int == (g as int) % 256) by (bit_vector);
    assert((b as u8) as int == (b as int) % 256) by (bit_vector);
    render_foreground(text.as_str(), red, green, blue)
}

/// `text` in bold.
pub fn set_bold(text: String) -> (styled: String)
    ensures
        styled@ == bold(text@),
{
    render_bold(text.as_str())
}

/// The name of the file or directory that the path `path_str` ends in.
pub fn get_file(path_str: &str) -> (name: Option<String>)
    ensures
        name.deep_view() == final_component(path_str@),
{
    file_name(path_str)
}

/// What is reported of a plugin at `path` that could not be loaded, with
/// the engine's `message`.
pub open spec fn plugin_report(path: Seq<char>, message: Seq<char>) -> Seq<char> {
    "Warning: Failed to load plugin "@ + path + ": "@ + message
}

/// What is reported of a plugin at `path` that could not be loaded, with
/// the engine's `message`.
pub fn plugin_warning(path: &str, message: &str) -> (report: String)
    ensures
        report@ == plugin_report(path@, message@),
{
    String::from_str("Warning: Failed to load plugin ").concat(path).concat(": ").concat(message)
}

} // verus!
