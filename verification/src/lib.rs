//! sbsh: the core of an interactive shell that a script configures.
//!
//! The library holds what the shell decides, with proofs; it does no input
//! or output of its own. A driver reads the lines, keeps the history, runs
//! programs and touches the environment, and asks the library what to do
//! next.
//!
//! - `cmd_runner` resolves a line of input: it cuts the line into words,
//!   substitutes an alias for the first word, and tells a builtin from an
//!   external command. `cmd_runner::aliases` is the alias table,
//!   `cmd_runner::small_utils` holds the rules of the builtins.
//! - `script` calls hooks in the script engine and reads its answers.
//! - `rhai_api` names the operations that scripts can call.
//! - `repl` is the read-eval loop as a state machine: the order of hooks,
//!   prompt, input and dispatch, from start-up to the end of the shell.
//! - `api` is what the shell offers on plain values: aliases, command
//!   resolution, styled text.
//! - `style`, `decimal`, `path`, `variables` and `text` are the helpers
//!   beneath: escape sequences, numbers in base ten, file names, the names of
//!   environment variables, characters and words.

pub mod api;
pub mod cmd_runner;
pub mod decimal;
pub mod path;
pub mod repl;
pub mod rhai_api;
pub mod script;
pub mod style;
pub mod text;
pub mod variables;
