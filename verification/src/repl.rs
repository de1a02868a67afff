//! The read-eval loop as a state machine.
//!
//! The shell's driver does the outside work: it reads variables and lines,
//! loads files, calls hooks, changes directory, starts programs. The machine
//! decides. It hands the driver one `Request` at a time; the driver performs
//! it and answers with a `Response`, upon which `Repl::step` gives the next
//! request, together with a line for the diagnostic output where there is
//! something to report.
//!
//! The policies of the loop:
//! - A configuration that fails to compile or to run is reported, and the
//!   shell goes on without hooks.
//! - A prompt variable that is not set is reported, and the default prompt is
//!   used.
//! - The hook `on_input` runs before the line is dispatched, and the line is
//!   dispatched whatever the hook did.
//! - A hook that the script does not define is passed over in silence; a hook
//!   that fails is reported, and the loop goes on.
//! - When the input ends, `on_exit` is called with the empty list, the
//!   history is saved and the shell ends with code 0. The builtin `exit`
//!   calls `on_exit` with its argument vector and ends the process at once:
//!   the history is not saved.
//!
//! A machine can also be made for one command line, which a script runs
//! through the shell: it dispatches the line as the loop would, calls no
//! `on_input`, and finishes when the command is done.

use crate::cmd_runner::aliases::AliasTable;
use crate::cmd_runner::handle_builtin;
use crate::cmd_runner::resolve;
use crate::cmd_runner::small_utils::cd_home;
use crate::cmd_runner::small_utils::exit_code;
use crate::cmd_runner::small_utils::exit_status;
use crate::cmd_runner::small_utils::home_or_root;
use crate::cmd_runner::Builtin;
use crate::cmd_runner::Dispatch;
use crate::cmd_runner::DispatchView;
use crate::script::HookCall;
use crate::script::HookCallView;
use crate::script::HookName;
use crate::script::HookOutcome;
use crate::script::HookOutcomeView;
use vstd::prelude::*;
use vstd::string::StringExecFns;

verus! {

/// How loading the configuration ended.
#[derive(Debug)]
pub enum ConfigOutcome {
    /// The script was compiled and ran to its end.
    Loaded,
    /// The script could not be read or compiled.
    CompileFailed { message: String },
    /// The script was compiled, and failed when it ran.
    RunFailed { message: String },
}

/// The view of a `ConfigOutcome`.
pub ghost enum ConfigOutcomeView {
    Loaded,
    CompileFailed { message: Seq<char> },
    RunFailed { message: Seq<char> },
}

impl View for ConfigOutcome {
    type V = ConfigOutcomeView;

    open spec fn view(&self) -> ConfigOutcomeView {
        match self {
            ConfigOutcome::Loaded => ConfigOutcomeView::Loaded,
            ConfigOutcome::CompileFailed { message } => ConfigOutcomeView::CompileFailed {
                message: message@,
            },
            ConfigOutcome::RunFailed { message } => ConfigOutcomeView::RunFailed {
                message: message@,
            },
        }
    }
}

/// What the driver is asked to do next.
#[derive(Debug)]
pub enum Request {
    /// Read the environment variable `name`. Answer: `Response::Variable`.
    ReadVariable { name: String },
    /// Compile the script at `path`, keep the program for the hooks and run
    /// it once. Answer: `Response::Config`.
    LoadConfig { path: String },
    /// Load the history of input lines from `path`; a file that is missing or
    /// cannot be read is passed over. Answer: `Response::Done`.
    LoadHistory { path: String },
    /// Call a hook. Answer: `Response::Hook`.
    CallHook { call: HookCall },
    /// Show `prompt` and read a line. Answer: `Response::Line`,
    /// `Response::EndOfInput` or `Response::ReadFailed`.
    ReadLine { prompt: String },
    /// Make `target` the working directory. Answer:
    /// `Response::DirectoryChanged` or `Response::DirectoryUnchanged`.
    ChangeDirectory { target: String },
    /// Clear the screen. Answer: `Response::Done`.
    ClearScreen,
    /// Run `command` as an external program, with the shell's own standard
    /// streams. Answer: `Response::Spawned`.
    Spawn { command: String },
    /// Save the history of input lines to `path`. Answer: `Response::Done`.
    SaveHistory { path: String },
    /// End the process with `code`. There is no answer.
    Exit { code: i32 },
    /// The command line that the machine was made for is done. There is no
    /// answer.
    Finish,
}

/// The view of a `Request`.
pub ghost enum RequestView {
    ReadVariable { name: Seq<char> },
    LoadConfig { path: Seq<char> },
    LoadHistory { path: Seq<char> },
    CallHook { call: HookCallView },
    ReadLine { prompt: Seq<char> },
    ChangeDirectory { target: Seq<char> },
    ClearScreen,
    Spawn { command: Seq<char> },
    SaveHistory { path: Seq<char> },
    Exit { code: i32 },
    Finish,
}

impl View for Request {
    type V = RequestView;

    open spec fn view(&self) -> RequestView {
        match self {
            Request::ReadVariable { name } => RequestView::ReadVariable { name: name@ },
            Request::LoadConfig { path } => RequestView::LoadConfig { path: path@ },
            Request::LoadHistory { path } => RequestView::LoadHistory { path: path@ },
            Request::CallHook { call } => RequestView::CallHook { call: call@ },
            Request::ReadLine { prompt } => RequestView::ReadLine { prompt: prompt@ },
            Request::ChangeDirectory { target } => RequestView::ChangeDirectory {
                target: target@,
            },
            Request::ClearScreen => RequestView::ClearScreen,
            Request::Spawn { command } => RequestView::Spawn { command: command@ },
            Request::SaveHistory { path } => RequestView::SaveHistory { path: path@ },
            Request::Exit { code } => RequestView::Exit { code: *code },
            Request::Finish => RequestView::Finish,
        }
    }
}

/// What the driver answers to a request.
#[derive(Debug)]
pub enum Response {
    /// The value of the variable, if it is set.
    Variable { value: Option<String> },
    /// How loading the configuration ended.
    Config { config: ConfigOutcome },
    /// The request was carried out.
    Done,
    /// How the call of the hook ended.
    Hook { outcome: HookOutcome },
    /// The line that was read.
    Line { text: String },
    /// The input has ended, or the user has interrupted it.
    EndOfInput,
    /// Reading failed.
    ReadFailed { message: String },
    /// The working directory has changed. `old_dir` is the directory before
    /// the change and `new_dir` the one after it, where they could be found
    /// out.
    DirectoryChanged { old_dir: Option<String>, new_dir: Option<String> },
    /// The working directory could not be changed.
    DirectoryUnchanged { message: String },
    /// The external program was run, or could not be started, with `error`
    /// saying why.
    Spawned { error: Option<String> },
}

/// The view of a `Response`.
pub ghost enum ResponseView {
    Variable { value: Option<Seq<char>> },
    Config { config: ConfigOutcomeView },
    Done,
    Hook { outcome: HookOutcomeView },
    Line { text: Seq<char> },
    EndOfInput,
    ReadFailed { message: Seq<char> },
    DirectoryChanged { old_dir: Option<Seq<char>>, new_dir: Option<Seq<char>> },
    DirectoryUnchanged { message: Seq<char> },
    Spawned { error: Option<Seq<char>> },
}

impl View for Response {
    type V = ResponseView;

    open spec fn view(&self) -> ResponseView {
        match self {
            Response::Variable { value } => ResponseView::Variable { value: value.deep_view() },
            Response::Config { config } => ResponseView::Config { config: config@ },
            Response::Done => ResponseView::Done,
            Response::Hook { outcome } => ResponseView::Hook { outcome: outcome@ },
            Response::Line { text } => ResponseView::Line { text: text@ },
            Response::EndOfInput => ResponseView::EndOfInput,
            Response::ReadFailed { message } => ResponseView::ReadFailed { message: message@ },
            Response::DirectoryChanged { old_dir, new_dir } => ResponseView::DirectoryChanged {
                old_dir: old_dir.deep_view(),
                new_dir: new_dir.deep_view(),
            },
            Response::DirectoryUnchanged { message } => ResponseView::DirectoryUnchanged {
                message: message@,
            },
            Response::Spawned { error } => ResponseView::Spawned { error: error.deep_view() },
        }
    }
}

/// Where the loop stands: which answer the machine is waiting for.
#[derive(Debug)]
pub enum Phase {
    /// Start-up: the home directory is being read.
    AwaitHome,
    /// Start-up: the configuration is being loaded.
    AwaitConfig,
    /// Start-up: the prompt variable is being read, to see that it is set.
    AwaitStartupPrompt,
    /// Start-up: the history is being loaded.
    AwaitHistory,
    /// Before input: the hook `repeat` is running.
    AwaitRepeat,
    /// Prompting: the prompt variable is being read.
    AwaitPrompt,
    /// Prompting: a line is being read.
    AwaitLine,
    /// After input: the hook `on_input` is running on `line`.
    AwaitInputHook { line: String },
    /// `cd` without an argument: the home directory is being read.
    AwaitCdHome,
    /// `cd`: the working directory is being changed to `target`.
    AwaitDirectory { target: String },
    /// `cd`: the hook `on_cd` is running.
    AwaitCdHook,
    /// `clr`: the screen is being cleared.
    AwaitClear,
    /// An external program is running.
    AwaitSpawn,
    /// `exit`: the hook `on_exit` is running; the process then ends with
    /// `code`.
    AwaitExitHook { code: i32 },
    /// The input has ended: the hook `on_exit` is running.
    AwaitFinalHook,
    /// The input has ended: the history is being saved.
    AwaitSave,
    /// The machine has ended: the process is to end, or the one command is
    /// done.
    Stopped,
}

/// The view of a `Phase`.
pub ghost enum PhaseView {
    AwaitHome,
    AwaitConfig,
    AwaitStartupPrompt,
    AwaitHistory,
    AwaitRepeat,
    AwaitPrompt,
    AwaitLine,
    AwaitInputHook { line: Seq<char> },
    AwaitCdHome,
    AwaitDirectory { target: Seq<char> },
    AwaitCdHook,
    AwaitClear,
    AwaitSpawn,
    AwaitExitHook { code: i32 },
    AwaitFinalHook,
    AwaitSave,
    Stopped,
}

impl View for Phase {
    type V = PhaseView;

    open spec fn view(&self) -> PhaseView {
        match self {
            Phase::AwaitHome => PhaseView::AwaitHome,
            Phase::AwaitConfig => PhaseView::AwaitConfig,
            Phase::AwaitStartupPrompt => PhaseView::AwaitStartupPrompt,
            Phase::AwaitHistory => PhaseView::AwaitHistory,
            Phase::AwaitRepeat => PhaseView::AwaitRepeat,
            Phase::AwaitPrompt => PhaseView::AwaitPrompt,
            Phase::AwaitLine => PhaseView::AwaitLine,
            Phase::AwaitInputHook { line } => PhaseView::AwaitInputHook { line: line@ },
            Phase::AwaitCdHome => PhaseView::AwaitCdHome,
            Phase::AwaitDirectory { target } => PhaseView::AwaitDirectory { target: target@ },
            Phase::AwaitCdHook => PhaseView::AwaitCdHook,
            Phase::AwaitClear => PhaseView::AwaitClear,
            Phase::AwaitSpawn => PhaseView::AwaitSpawn,
            Phase::AwaitExitHook { code } => PhaseView::AwaitExitHook { code: *code },
            Phase::AwaitFinalHook => PhaseView::AwaitFinalHook,
            Phase::AwaitSave => PhaseView::AwaitSave,
            Phase::Stopped => PhaseView::Stopped,
        }
    }
}

/// The state of the loop.
pub struct Repl {
    phase: Phase,
    hooks: bool,
    single: bool,
    history: String,
}

/// The view of a `Repl`.
pub ghost struct ReplView {
    /// Where the loop stands.
    pub phase: PhaseView,
    /// `true` when a program is installed whose hooks are to be called.
    pub hooks: bool,
    /// `true` when the machine was made for one command line.
    pub single: bool,
    /// The path of the history file.
    pub history: Seq<char>,
}

impl View for Repl {
    type V = ReplView;

    closed spec fn view(&self) -> ReplView {
        ReplView {
            phase: self.phase@,
            hooks: self.hooks,
            single: self.single,
            history: self.history@,
        }
    }
}

/// One step of the machine: a line for the diagnostic output, where there is
/// something to report, and the next request.
#[derive(Debug)]
pub struct Step {
    pub report: Option<String>,
    pub request: Request,
}

/// The view of a `Step`.
pub ghost struct StepView {
    pub report: Option<Seq<char>>,
    pub request: RequestView,
}

impl View for Step {
    type V = StepView;

    open spec fn view(&self) -> StepView {
        StepView { report: self.report.deep_view(), request: self.request@ }
    }
}

/// The answer does not fit the request that the machine made last.
#[derive(Debug)]
pub struct Unexpected {
    pub response: Response,
}

/// The state in which the machine starts.
pub open spec fn initial_state() -> ReplView {
    ReplView { phase: PhaseView::AwaitHome, hooks: false, single: false, history: Seq::empty() }
}

/// The request with which the machine starts.
pub open spec fn initial_request() -> RequestView {
    RequestView::ReadVariable { name: "HOME"@ }
}

/// The path of the configuration script, under the home directory `home`.
pub open spec fn config_path(home: Seq<char>) -> Seq<char> {
    home + "/.sbshrc.rhai"@
}

/// The path of the history file, under the home directory `home`.
pub open spec fn history_path(home: Seq<char>) -> Seq<char> {
    home + "/.sbsh_history.txt"@
}

/// `value`, or the empty text where there is none.
pub open spec fn or_empty(value: Option<Seq<char>>) -> Seq<char> {
    match value {
        Some(text) => text,
        None => Seq::empty(),
    }
}

/// What is reported of a configuration that was loaded with `outcome`.
pub open spec fn config_report(outcome: ConfigOutcomeView) -> Option<Seq<char>> {
    match outcome {
        ConfigOutcomeView::Loaded => None,
        ConfigOutcomeView::CompileFailed { message } => Some(
            "Warning: Failed to compile config: "@ + message + ". Using default settings."@,
        ),
        ConfigOutcomeView::RunFailed { message } => Some(
            "Warning: Failed to execute config: "@ + message + ". Continuing with defaults."@,
        ),
    }
}

/// What is reported of a call of `hook` that ended with `outcome`: nothing,
/// unless the hook failed.
pub open spec fn hook_report(hook: HookName, outcome: HookOutcomeView) -> Option<Seq<char>> {
    match outcome {
        HookOutcomeView::Failed { message } => Some(
            "Error in "@ + hook.spec_name() + " hook: "@ + message,
        ),
        _ => None,
    }
}

/// What is reported of an external program: nothing, unless it could not be
/// started.
pub open spec fn spawn_report(error: Option<Seq<char>>) -> Option<Seq<char>> {
    match error {
        Some(message) => Some("Error executing command: "@ + message),
        None => None,
    }
}

/// The start of a turn of the loop: the hook `repeat` where hooks are
/// installed, else the prompt at once.
pub open spec fn turn(hooks: bool) -> (PhaseView, RequestView) {
    if hooks {
        (
            PhaseView::AwaitRepeat,
            RequestView::CallHook { call: HookCallView::Repeat },
        )
    } else {
        (PhaseView::AwaitPrompt, RequestView::ReadVariable { name: "PS1"@ })
    }
}

/// What follows a command that is done: the next turn of the loop, or the
/// end of a machine that was made for one command line.
pub open spec fn after_command(single: bool, hooks: bool) -> (PhaseView, RequestView) {
    if single {
        (PhaseView::Stopped, RequestView::Finish)
    } else {
        turn(hooks)
    }
}

/// What follows the end of the input: the hook `on_exit` with the empty list
/// where hooks are installed, else the saving of the history at once.
pub open spec fn ending(hooks: bool, history: Seq<char>) -> (PhaseView, RequestView) {
    if hooks {
        (
            PhaseView::AwaitFinalHook,
            RequestView::CallHook { call: HookCallView::OnExit { args: Seq::empty() } },
        )
    } else {
        (PhaseView::AwaitSave, RequestView::SaveHistory { path: history })
    }
}

/// What follows a line that resolved to `dispatch`.
pub open spec fn dispatching(single: bool, hooks: bool, dispatch: DispatchView) -> (
    PhaseView,
    RequestView,
) {
    match dispatch {
        DispatchView::Nothing => after_command(single, hooks),
        DispatchView::External { command } => (
            PhaseView::AwaitSpawn,
            RequestView::Spawn { command },
        ),
        DispatchView::Builtin { builtin: Builtin::Clr, args } => (
            PhaseView::AwaitClear,
            RequestView::ClearScreen,
        ),
        DispatchView::Builtin { builtin: Builtin::Cd, args } => if args.len() >= 2 {
            (
                PhaseView::AwaitDirectory { target: args[1] },
                RequestView::ChangeDirectory { target: args[1] },
            )
        } else {
            (PhaseView::AwaitCdHome, RequestView::ReadVariable { name: "HOME"@ })
        },
        DispatchView::Builtin { builtin: Builtin::Exit, args } => if hooks {
            (
                PhaseView::AwaitExitHook { code: exit_status(args) },
                RequestView::CallHook { call: HookCallView::OnExit { args } },
            )
        } else {
            (PhaseView::Stopped, RequestView::Exit { code: exit_status(args) })
        },
    }
}

/// A state and a step put together.
pub open spec fn moving(
    state: ReplView,
    report: Option<Seq<char>>,
    to: (PhaseView, RequestView),
) -> Option<(ReplView, StepView)> {
    Some(
        (
            ReplView { phase: to.0, ..state },
            StepView { report, request: to.1 },
        ),
    )
}

/// The transition function of the machine: the state and the step that
/// follow when `response` arrives in `state`, with the aliases of `table`.
/// `None` when `response` does not answer the request of `state`.
pub open spec fn next(
    state: ReplView,
    table: Map<Seq<char>, Seq<char>>,
    response: ResponseView,
) -> Option<(ReplView, StepView)> {
    match (state.phase, response) {
        (PhaseView::AwaitHome, ResponseView::Variable { value }) => Some(
            (
                ReplView {
                    phase: PhaseView::AwaitConfig,
                    hooks: false,
                    history: history_path(or_empty(value)),
                    ..state
                },
                StepView {
                    report: None,
                    request: RequestView::LoadConfig { path: config_path(or_empty(value)) },
                },
            ),
        ),
        (PhaseView::AwaitConfig, ResponseView::Config { config }) => Some(
            (
                ReplView {
                    phase: PhaseView::AwaitStartupPrompt,
                    hooks: config is Loaded,
                    ..state
                },
                StepView {
                    report: config_report(config),
                    request: RequestView::ReadVariable { name: "PS1"@ },
                },
            ),
        ),
        (PhaseView::AwaitStartupPrompt, ResponseView::Variable { value }) => moving(
            state,
            if value is Some {
                None
            } else {
                Some("Warning: PS1 not set. Using default prompt: Fix config>> "@)
            },
            (PhaseView::AwaitHistory, RequestView::LoadHistory { path: state.history }),
        ),
        (PhaseView::AwaitHistory, ResponseView::Done) => moving(state, None, turn(state.hooks)),
        (PhaseView::AwaitRepeat, ResponseView::Hook { outcome }) => moving(
            state,
            hook_report(HookName::Repeat, outcome),
            (PhaseView::AwaitPrompt, RequestView::ReadVariable { name: "PS1"@ }),
        ),
        (PhaseView::AwaitPrompt, ResponseView::Variable { value }) => match value {
            Some(prompt) => moving(
                state,
                None,
                (PhaseView::AwaitLine, RequestView::ReadLine { prompt }),
            ),
            None => moving(
                state,
                Some("Warning: PS1 became unset, using default."@),
                (PhaseView::AwaitLine, RequestView::ReadLine { prompt: "Fix config>> "@ }),
            ),
        },
        (PhaseView::AwaitLine, ResponseView::Line { text }) => if state.hooks {
            moving(
                state,
                None,
                (
                    PhaseView::AwaitInputHook { line: text },
                    RequestView::CallHook { call: HookCallView::OnInput { line: text } },
                ),
            )
        } else {
            moving(state, None, dispatching(state.single, state.hooks, resolve(table, text)))
        },
        (PhaseView::AwaitLine, ResponseView::EndOfInput) => moving(
            state,
            None,
            ending(state.hooks, state.history),
        ),
        (PhaseView::AwaitLine, ResponseView::ReadFailed { message }) => moving(
            state,
            Some("Readline error: "@ + message),
            ending(state.hooks, state.history),
        ),
        (PhaseView::AwaitInputHook { line }, ResponseView::Hook { outcome }) => moving(
            state,
            hook_report(HookName::OnInput, outcome),
            dispatching(state.single, state.hooks, resolve(table, line)),
        ),
        (PhaseView::AwaitCdHome, ResponseView::Variable { value }) => moving(
            state,
            None,
            (
                PhaseView::AwaitDirectory { target: home_or_root(value) },
                RequestView::ChangeDirectory { target: home_or_root(value) },
            ),
        ),
        (
            PhaseView::AwaitDirectory { target },
            ResponseView::DirectoryChanged { old_dir, new_dir },
        ) => if state.hooks {
            moving(
                state,
                None,
                (
                    PhaseView::AwaitCdHook,
                    RequestView::CallHook {
                        call: HookCallView::OnCd {
                            old_dir: or_empty(old_dir),
                            new_dir: match new_dir {
                                Some(dir) => dir,
                                None => target,
                            },
                        },
                    },
                ),
            )
        } else {
            moving(state, None, after_command(state.single, state.hooks))
        },
        (
            PhaseView::AwaitDirectory { target },
            ResponseView::DirectoryUnchanged { message },
        ) => moving(
            state,
            Some("cd: "@ + target + ": "@ + message),
            after_command(state.single, state.hooks),
        ),
        (PhaseView::AwaitCdHook, ResponseView::Hook { outcome }) => moving(
            state,
            hook_report(HookName::OnCd, outcome),
            after_command(state.single, state.hooks),
        ),
        (PhaseView::AwaitClear, ResponseView::Done) => moving(
            state,
            None,
            after_command(state.single, state.hooks),
        ),
        (PhaseView::AwaitSpawn, ResponseView::Spawned { error }) => moving(
            state,
            spawn_report(error),
            after_command(state.single, state.hooks),
        ),
        (PhaseView::AwaitExitHook { code }, ResponseView::Hook { outcome }) => moving(
            state,
            hook_report(HookName::OnExit, outcome),
            (PhaseView::Stopped, RequestView::Exit { code }),
        ),
        (PhaseView::AwaitFinalHook, ResponseView::Hook { outcome }) => moving(
            state,
            hook_report(HookName::OnExit, outcome),
            (PhaseView::AwaitSave, RequestView::SaveHistory { path: state.history }),
        ),
        (PhaseView::AwaitSave, ResponseView::Done) => moving(
            state,
            None,
            (PhaseView::Stopped, RequestView::Exit { code: 0 }),
        ),
        _ => None,
    }
}

/// What is reported of a call of `hook` that ended with `outcome`.
fn report_hook(hook: HookName, outcome: HookOutcome) -> (report: Option<String>)
    ensures
        report.deep_view() == hook_report(hook, outcome@),
{
    match outcome {
        HookOutcome::Failed { message } => {
            let line = String::from_str("Error in ").concat(hook.name()).concat(" hook: ").concat(
                message.as_str(),
            );
            Some(line)
        },
        _ => None,
    }
}

/// The start of a turn of the loop.
fn start_turn(hooks: bool) -> (to: (Phase, Request))
    ensures
        (to.0@, to.1@) == turn(hooks),
{
    if hooks {
        (Phase::AwaitRepeat, Request::CallHook { call: HookCall::Repeat })
    } else {
        (Phase::AwaitPrompt, Request::ReadVariable { name: String::from_str("PS1") })
    }
}

/// What follows a command that is done.
fn finish_command(single: bool, hooks: bool) -> (to: (Phase, Request))
    ensures
        (to.0@, to.1@) == after_command(single, hooks),
{
    if single {
        (Phase::Stopped, Request::Finish)
    } else {
        start_turn(hooks)
    }
}

/// What follows the end of the input.
fn start_ending(hooks: bool, history: &String) -> (to: (Phase, Request))
    ensures
        (to.0@, to.1@) == ending(hooks, history@),
{
    if hooks {
        let args: Vec<String> = Vec::new();
        assert(args.deep_view() =~= Seq::<Seq<char>>::empty());
        (Phase::AwaitFinalHook, Request::CallHook { call: HookCall::OnExit { args } })
    } else {
        (Phase::AwaitSave, Request::SaveHistory { path: history.clone() })
    }
}

/// What follows a line that resolved to `dispatch`.
fn start_dispatch(single: bool, hooks: bool, dispatch: Dispatch) -> (to: (Phase, Request))
    ensures
        (to.0@, to.1@) == dispatching(single, hooks, dispatch@),
{
    match dispatch {
        Dispatch::Nothing => finish_command(single, hooks),
        Dispatch::External { command } => (Phase::AwaitSpawn, Request::Spawn { command }),
        Dispatch::Builtin { builtin, args } => match builtin {
            Builtin::Clr => (Phase::AwaitClear, Request::ClearScreen),
            Builtin::Cd => if args.len() >= 2 {
                let target = args[1].clone();
                (
                    Phase::AwaitDirectory { target: target.clone() },
                    Request::ChangeDirectory { target },
                )
            } else {
                (Phase::AwaitCdHome, Request::ReadVariable { name: String::from_str("HOME") })
            },
            Builtin::Exit => {
                let code = exit_code(&args);
                if hooks {
                    (
                        Phase::AwaitExitHook { code },
                        Request::CallHook { call: HookCall::OnExit { args } },
                    )
                } else {
                    (Phase::Stopped, Request::Exit { code })
                }
            },
        },
    }
}

impl Repl {
    /// A machine at its start, and its first request.
    pub fn new() -> (start: (Repl, Request))
        ensures
            start.0@ == initial_state(),
            start.1@ == initial_request(),
    {
        (
            Repl { phase: Phase::AwaitHome, hooks: false, single: false, history: String::new() },
            Request::ReadVariable { name: String::from_str("HOME") },
        )
    }

    /// A machine for the one command line `line`, and its first request. It
    /// dispatches the line under the aliases of `table`, calling hooks where
    /// `hooks` says that they are installed, and asks to finish when the
    /// command is done.
    pub fn for_command(hooks: bool, table: &AliasTable, line: &str) -> (start: (Repl, Request))
        ensures
            start.0@ == (ReplView {
                phase: dispatching(true, hooks, resolve(table@, line@)).0,
                hooks,
                single: true,
                history: Seq::empty(),
            }),
            start.1@ == dispatching(true, hooks, resolve(table@, line@)).1,
    {
        let to = start_dispatch(true, hooks, handle_builtin(table, line));
        (Repl { phase: to.0, hooks, single: true, history: String::new() }, to.1)
    }

    /// `true` when the machine has ended: no answer is accepted any more.
    pub fn is_stopped(&self) -> (stopped: bool)
        ensures
            stopped == (self@.phase is Stopped),
    {
        match self.phase {
            Phase::Stopped => true,
            _ => false,
        }
    }

    /// `true` when a program is installed whose hooks are called.
    pub fn hooks_installed(&self) -> (hooks: bool)
        ensures
            hooks == self@.hooks,
    {
        self.hooks
    }

    /// Takes the driver's answer to the last request and gives the next
    /// step. `table` holds the aliases as they are now. An answer that does
    /// not fit the last request is handed back, and the machine stays as it
    /// is.
    pub fn step(&mut self, table: &AliasTable, response: Response) -> (result: Result<
        Step,
        Unexpected,
    >)
        ensures
            match next(old(self)@, table@, response@) {
                Some((state, step)) => {
                    &&& result matches Ok(taken)
                    &&& taken@ == step
                    &&& final(self)@ == state
                },
                None => {
                    &&& result matches Err(unexpected)
                    &&& unexpected.response@ == response@
                    &&& final(self)@ == old(self)@
                },
            },
    {
        let mut phase = Phase::Stopped;
        std::mem::swap(&mut self.phase, &mut phase);
        let hooks = self.hooks;
        let single = self.single;
        let (report, to): (Option<String>, (Phase, Request)) = match (phase, response) {
            (Phase::AwaitHome, Response::Variable { value }) => {
                let home = match value {
                    Some(dir) => dir,
                    None => String::new(),
                };
                self.hooks = false;
                self.history = home.clone().concat("/.sbsh_history.txt");
                let path = home.concat("/.sbshrc.rhai");
                (None, (Phase::AwaitConfig, Request::LoadConfig { path }))
            },
            (Phase::AwaitConfig, Response::Config { config }) => {
                self.hooks = match config {
                    ConfigOutcome::Loaded => true,
                    _ => false,
                };
                let report = match config {
                    ConfigOutcome::Loaded => None,
                    ConfigOutcome::CompileFailed { message } => Some(
                        String::from_str("Warning: Failed to compile config: ").concat(
                            message.as_str(),
                        ).concat(". Using default settings."),
                    ),
                    ConfigOutcome::RunFailed { message } => Some(
                        String::from_str("Warning: Failed to execute config: ").concat(
                            message.as_str(),
                        ).concat(". Continuing with defaults."),
                    ),
                };
                (
                    report,
                    (
                        Phase::AwaitStartupPrompt,
                        Request::ReadVariable { name: String::from_str("PS1") },
                    ),
                )
            },
            (Phase::AwaitStartupPrompt, Response::Variable { value }) => {
                let report = match value {
                    Some(_) => None,
                    None => Some(
                        String::from_str(
                            "Warning: PS1 not set. Using default prompt: Fix config>> ",
                        ),
                    ),
                };
                (report, (Phase::AwaitHistory, Request::LoadHistory { path: self.history.clone() }))
            },
            (Phase::AwaitHistory, Response::Done) => (None, start_turn(hooks)),
            (Phase::AwaitRepeat, Response::Hook { outcome }) => (
                report_hook(HookName::Repeat, outcome),
                (Phase::AwaitPrompt, Request::ReadVariable { name: String::from_str("PS1") }),
            ),
            (Phase::AwaitPrompt, Response::Variable { value }) => match value {
                Some(prompt) => (None, (Phase::AwaitLine, Request::ReadLine { prompt })),
                None => (
                    Some(String::from_str("Warning: PS1 became unset, using default.")),
                    (
                        Phase::AwaitLine,
                        Request::ReadLine { prompt: String::from_str("Fix config>> ") },
                    ),
                ),
            },
            (Phase::AwaitLine, Response::Line { text }) => if hooks {
                (
                    None,
                    (
                        Phase::AwaitInputHook { line: text.clone() },
                        Request::CallHook { call: HookCall::OnInput { line: text } },
                    ),
                )
            } else {
                (None, start_dispatch(single, hooks, handle_builtin(table, text.as_str())))
            },
            (Phase::AwaitLine, Response::EndOfInput) => (None, start_ending(hooks, &self.history)),
            (Phase::AwaitLine, Response::ReadFailed { message }) => (
                Some(String::from_str("Readline error: ").concat(message.as_str())),
                start_ending(hooks, &self.history),
            ),
            (Phase::AwaitInputHook { line }, Response::Hook { outcome }) => (
                report_hook(HookName::OnInput, outcome),
                start_dispatch(single, hooks, handle_builtin(table, line.as_str())),
            ),
            (Phase::AwaitCdHome, Response::Variable { value }) => {
                let target = cd_home(value);
                (
                    None,
                    (
                        Phase::AwaitDirectory { target: target.clone() },
                        Request::ChangeDirectory { target },
                    ),
                )
            },
            (Phase::AwaitDirectory { target }, Response::DirectoryChanged { old_dir, new_dir }) => {
                if hooks {
                    let old_dir = match old_dir {
                        Some(dir) => dir,
                        None => String::new(),
                    };
                    let new_dir = match new_dir {
                        Some(dir) => dir,
                        None => target,
                    };
                    (
                        None,
                        (
                            Phase::AwaitCdHook,
                            Request::CallHook { call: HookCall::OnCd { old_dir, new_dir } },
                        ),
                    )
                } else {
                    (None, finish_command(single, hooks))
                }
            },
            (Phase::AwaitDirectory { target }, Response::DirectoryUnchanged { message }) => (
                Some(
                    String::from_str("cd: ").concat(target.as_str()).concat(": ").concat(
                        message.as_str(),
                    ),
                ),
                finish_command(single, hooks),
            ),
            (Phase::AwaitCdHook, Response::Hook { outcome }) => (
                report_hook(HookName::OnCd, outcome),
                finish_command(single, hooks),
            ),
            (Phase::AwaitClear, Response::Done) => (None, finish_command(single, hooks)),
            (Phase::AwaitSpawn, Response::Spawned { error }) => {
                let report = match error {
                    Some(message) => Some(
                        String::from_str("Error executing command: ").concat(message.as_str()),
                    ),
                    None => None,
                };
                (report, finish_command(single, hooks))
            },
            (Phase::AwaitExitHook { code }, Response::Hook { outcome }) => (
                report_hook(HookName::OnExit, outcome),
                (Phase::Stopped, Request::Exit { code }),
            ),
            (Phase::AwaitFinalHook, Response::Hook { outcome }) => (
                report_hook(HookName::OnExit, outcome),
                (Phase::AwaitSave, Request::SaveHistory { path: self.history.clone() }),
            ),
            (Phase::AwaitSave, Response::Done) => (
                None,
                (Phase::Stopped, Request::Exit { code: 0 }),
            ),
            (phase, response) => {
                self.phase = phase;
                return Err(Unexpected { response });
            },
        };
        self.phase = to.0;
        Ok(Step { report, request: to.1 })
    }
}

/// How a hook ended changes nothing but the report: a hook that the script
/// does not define is passed over in silence, a hook that fails is reported,
/// and either way the loop goes on as after a hook that succeeded.
pub proof fn law_hook_outcome_changes_only_the_report(
    state: ReplView,
    table: Map<Seq<char>, Seq<char>>,
    outcome: HookOutcomeView,
)
    ensures
        match (
            next(state, table, ResponseView::Hook { outcome }),
            next(state, table, ResponseView::Hook { outcome: HookOutcomeView::Succeeded }),
        ) {
            (Some((after, step)), Some((after_success, step_success))) => {
                &&& after == after_success
                &&& step.request == step_success.request
                &&& step.report is Some <==> outcome is Failed
            },
            (None, None) => true,
            _ => false,
        },
{
}

/// Where no hooks are installed, no hook is called.
pub proof fn law_no_hooks_no_calls(
    state: ReplView,
    table: Map<Seq<char>, Seq<char>>,
    response: ResponseView,
)
    requires
        !state.hooks,
    ensures
        next(state, table, response) matches Some((_, step)) ==> !(step.request is CallHook),
{
}

/// Hooks are installed when the configuration has been loaded, and at no
/// other time; they are never taken away again.
pub proof fn law_hooks_are_installed_at_startup(
    state: ReplView,
    table: Map<Seq<char>, Seq<char>>,
    response: ResponseView,
)
    ensures
        next(state, table, response) matches Some((after, _)) ==> {
            if state.phase is AwaitHome {
                !after.hooks
            } else if state.phase is AwaitConfig {
                after.hooks <==> response matches ResponseView::Config {
                    config: ConfigOutcomeView::Loaded,
                }
            } else {
                after.hooks == state.hooks
            }
        },
{
}

/// Without hooks, a line that was read goes straight to its dispatch.
pub proof fn law_line_without_hooks_is_dispatched(
    state: ReplView,
    table: Map<Seq<char>, Seq<char>>,
    text: Seq<char>,
)
    requires
        state.phase is AwaitLine,
        !state.hooks,
    ensures
        next(state, table, ResponseView::Line { text }) == moving(
            state,
            None,
            dispatching(state.single, false, resolve(table, text)),
        ),
{
}

/// With hooks, `on_input` is called with the line, and the line is then
/// dispatched, whatever the hook did.
pub proof fn law_line_with_hooks_is_dispatched_after_the_hook(
    state: ReplView,
    table: Map<Seq<char>, Seq<char>>,
    text: Seq<char>,
    outcome: HookOutcomeView,
)
    requires
        state.phase is AwaitLine,
        state.hooks,
    ensures
        next(state, table, ResponseView::Line { text }) matches Some((waiting, asked)) && {
            &&& asked.request == RequestView::CallHook {
                call: HookCallView::OnInput { line: text },
            }
            &&& next(waiting, table, ResponseView::Hook { outcome }) matches Some((_, step))
            &&& step.request == dispatching(state.single, true, resolve(table, text)).1
        },
{
}

/// `cd` without an argument goes to the home directory, and to `/` where no
/// home directory is known.
pub proof fn law_cd_without_argument_goes_home(
    state: ReplView,
    table: Map<Seq<char>, Seq<char>>,
    args: Seq<Seq<char>>,
    home: Option<Seq<char>>,
)
    requires
        args.len() < 2,
    ensures
        dispatching(
            state.single,
            state.hooks,
            DispatchView::Builtin { builtin: Builtin::Cd, args },
        ) == (PhaseView::AwaitCdHome, RequestView::ReadVariable { name: "HOME"@ }),
        next(
            ReplView { phase: PhaseView::AwaitCdHome, ..state },
            table,
            ResponseView::Variable { value: home },
        ) matches Some((_, step)) && step.request == (RequestView::ChangeDirectory {
            target: home_or_root(home),
        }),
{
}

/// `on_cd` is called only when the directory has changed, with the
/// directory before the change and the one after it.
pub proof fn law_on_cd_follows_a_change(
    state: ReplView,
    table: Map<Seq<char>, Seq<char>>,
    response: ResponseView,
)
    ensures
        next(state, table, response) matches Some((_, step)) ==> (step.request
            matches RequestView::CallHook {
            call: HookCallView::OnCd { old_dir: left, new_dir: entered },
        } ==> {
            &&& state.phase is AwaitDirectory
            &&& response matches ResponseView::DirectoryChanged { old_dir, new_dir }
            &&& old_dir matches Some(dir) ==> left == dir
            &&& new_dir matches Some(dir) ==> entered == dir
        }),
{
}

/// A `cd` that fails is reported and calls no `on_cd`: the command is done.
pub proof fn law_failed_cd_is_reported(
    state: ReplView,
    table: Map<Seq<char>, Seq<char>>,
    message: Seq<char>,
)
    requires
        state.phase is AwaitDirectory,
    ensures
        next(state, table, ResponseView::DirectoryUnchanged { message }) == moving(
            state,
            Some("cd: "@ + state.phase->AwaitDirectory_target + ": "@ + message),
            after_command(state.single, state.hooks),
        ),
        !(after_command(state.single, state.hooks).1 matches RequestView::CallHook {
            call: HookCallView::OnCd { .. },
        }),
{
}

/// The history is saved only when the input has ended, and the shell then
/// ends with code 0. The builtin `exit` ends the process without saving it.
pub proof fn law_history_is_saved_at_end_of_input(
    state: ReplView,
    table: Map<Seq<char>, Seq<char>>,
    response: ResponseView,
)
    ensures
        next(state, table, response) matches Some((after, step)) ==> {
            &&& step.request is SaveHistory ==> {
                &&& state.phase is AwaitLine || state.phase is AwaitFinalHook
                &&& !(response is Line)
                &&& step.request == RequestView::SaveHistory { path: state.history }
                &&& next(after, table, ResponseView::Done) matches Some((_, last))
                &&& last.request == RequestView::Exit { code: 0 }
            }
            &&& state.phase is AwaitExitHook ==> step.request == RequestView::Exit {
                code: state.phase->AwaitExitHook_code,
            }
        },
{
}

/// The machine is stopped exactly when it has asked for the end of the
/// process or has finished its one command, and once stopped it accepts no
/// answer.
pub proof fn law_stopped_is_final(
    state: ReplView,
    table: Map<Seq<char>, Seq<char>>,
    response: ResponseView,
)
    ensures
        state.phase is Stopped ==> next(state, table, response) is None,
        next(state, table, response) matches Some((after, step)) ==> (after.phase is Stopped
            <==> step.request is Exit || step.request is Finish),
{
}

/// The answers that fit a request.
pub open spec fn answers(request: RequestView, response: ResponseView) -> bool {
    match request {
        RequestView::ReadVariable { .. } => response is Variable,
        RequestView::LoadConfig { .. } => response is Config,
        RequestView::LoadHistory { .. } => response is Done,
        RequestView::CallHook { .. } => response is Hook,
        RequestView::ReadLine { .. } => response is Line || response is EndOfInput
            || response is ReadFailed,
        RequestView::ChangeDirectory { .. } => response is DirectoryChanged
            || response is DirectoryUnchanged,
        RequestView::ClearScreen => response is Done,
        RequestView::Spawn { .. } => response is Spawned,
        RequestView::SaveHistory { .. } => response is Done,
        RequestView::Exit { .. } => false,
        RequestView::Finish => false,
    }
}

/// The answers that the machine takes in a phase.
pub open spec fn takes(phase: PhaseView, response: ResponseView) -> bool {
    match phase {
        PhaseView::AwaitHome => response is Variable,
        PhaseView::AwaitConfig => response is Config,
        PhaseView::AwaitStartupPrompt => response is Variable,
        PhaseView::AwaitHistory => response is Done,
        PhaseView::AwaitRepeat => response is Hook,
        PhaseView::AwaitPrompt => response is Variable,
        PhaseView::AwaitLine => response is Line || response is EndOfInput
            || response is ReadFailed,
        PhaseView::AwaitInputHook { .. } => response is Hook,
        PhaseView::AwaitCdHome => response is Variable,
        PhaseView::AwaitDirectory { .. } => response is DirectoryChanged
            || response is DirectoryUnchanged,
        PhaseView::AwaitCdHook => response is Hook,
        PhaseView::AwaitClear => response is Done,
        PhaseView::AwaitSpawn => response is Spawned,
        PhaseView::AwaitExitHook { .. } => response is Hook,
        PhaseView::AwaitFinalHook => response is Hook,
        PhaseView::AwaitSave => response is Done,
        PhaseView::Stopped => false,
    }
}

/// A step is taken exactly on the answers that the phase takes.
pub proof fn law_a_phase_takes_its_answers(
    state: ReplView,
    table: Map<Seq<char>, Seq<char>>,
    response: ResponseView,
)
    ensures
        next(state, table, response) is Some <==> takes(state.phase, response),
{
}

/// Every step leaves the machine in a phase that takes exactly the answers
/// that fit the request of the step.
pub proof fn law_a_step_awaits_the_answers_to_its_request(
    state: ReplView,
    table: Map<Seq<char>, Seq<char>>,
    response: ResponseView,
    reply: ResponseView,
)
    ensures
        next(state, table, response) matches Some((after, step)) ==> (takes(after.phase, reply)
            <==> answers(step.request, reply)),
{
}

/// A machine starts in a phase that takes exactly the answers that fit its
/// first request, be it made for the loop or for one command.
pub proof fn law_a_machine_awaits_the_answers_to_its_first_request(
    table: Map<Seq<char>, Seq<char>>,
    hooks: bool,
    line: Seq<char>,
    reply: ResponseView,
)
    ensures
        takes(initial_state().phase, reply) <==> answers(initial_request(), reply),
        takes(dispatching(true, hooks, resolve(table, line)).0, reply) <==> answers(
            dispatching(true, hooks, resolve(table, line)).1,
            reply,
        ),
{
}

/// The stages of the loop's life.
pub ghost enum Stage {
    /// The shell is starting: configuration, prompt and history.
    Startup,
    /// Before input: the hook `repeat`.
    PreInput,
    /// The prompt is shown and a line awaited.
    Prompting,
    /// After input: the hook `on_input` and the command.
    PostInput,
    /// The input has ended: the hook `on_exit` and the history.
    Terminal,
    /// The shell has ended.
    Stopped,
}

/// The stage that a phase belongs to.
pub open spec fn stage(phase: PhaseView) -> Stage {
    match phase {
        PhaseView::AwaitHome => Stage::Startup,
        PhaseView::AwaitConfig => Stage::Startup,
        PhaseView::AwaitStartupPrompt => Stage::Startup,
        PhaseView::AwaitHistory => Stage::Startup,
        PhaseView::AwaitRepeat => Stage::PreInput,
        PhaseView::AwaitPrompt => Stage::Prompting,
        PhaseView::AwaitLine => Stage::Prompting,
        PhaseView::AwaitInputHook { .. } => Stage::PostInput,
        PhaseView::AwaitCdHome => Stage::PostInput,
        PhaseView::AwaitDirectory { .. } => Stage::PostInput,
        PhaseView::AwaitCdHook => Stage::PostInput,
        PhaseView::AwaitClear => Stage::PostInput,
        PhaseView::AwaitSpawn => Stage::PostInput,
        PhaseView::AwaitExitHook { .. } => Stage::PostInput,
        PhaseView::AwaitFinalHook => Stage::Terminal,
        PhaseView::AwaitSave => Stage::Terminal,
        PhaseView::Stopped => Stage::Stopped,
    }
}

/// The steps that the loop may take from one stage to another. Where no
/// hooks are installed there is nothing to do before input, and the prompt
/// follows at once.
pub open spec fn follows(from: Stage, to: Stage, hooks: bool) -> bool {
    match from {
        Stage::Startup => to is Startup || to == entry(hooks),
        Stage::PreInput => to is Prompting,
        Stage::Prompting => to is Prompting || to is PostInput || to is Terminal || to == entry(
            hooks,
        ) || (!hooks && to is Stopped),
        Stage::PostInput => to is PostInput || to == entry(hooks) || to is Stopped,
        Stage::Terminal => to is Terminal || to is Stopped,
        Stage::Stopped => false,
    }
}

/// The stage in which a turn of the loop starts.
pub open spec fn entry(hooks: bool) -> Stage {
    if hooks {
        Stage::PreInput
    } else {
        Stage::Prompting
    }
}

/// The loop moves through its stages in their order: from start-up into the
/// turns, within a turn from the hook `repeat` to the prompt, to the
/// command and back to the next turn, and from the prompt to the end when the
/// input has ended. Only `exit` ends the shell from within a turn.
pub proof fn law_stages_follow_in_order(
    state: ReplView,
    table: Map<Seq<char>, Seq<char>>,
    response: ResponseView,
)
    requires
        !state.single,
    ensures
        next(state, table, response) matches Some((after, _)) ==> follows(
            stage(state.phase),
            stage(after.phase),
            after.hooks,
        ),
{
}

/// The phases of a command that is being carried out.
pub open spec fn in_command(phase: PhaseView) -> bool {
    ||| phase is AwaitCdHome
    ||| phase is AwaitDirectory
    ||| phase is AwaitCdHook
    ||| phase is AwaitClear
    ||| phase is AwaitSpawn
    ||| phase is AwaitExitHook
    ||| phase is Stopped
}

/// A machine that was made for one command line carries out that command
/// and nothing else: it starts in the command, stays in it, and asks only
/// for what the command needs, until it finishes or ends the process.
pub proof fn law_one_command_is_all_that_is_done(
    state: ReplView,
    table: Map<Seq<char>, Seq<char>>,
    line: Seq<char>,
    response: ResponseView,
)
    requires
        state.single,
        in_command(state.phase),
    ensures
        in_command(dispatching(true, state.hooks, resolve(table, line)).0),
        next(state, table, response) matches Some((after, step)) ==> {
            &&& after.single
            &&& in_command(after.phase)
            &&& match step.request {
                RequestView::ChangeDirectory { .. } => true,
                RequestView::CallHook { call } => call is OnCd,
                RequestView::Finish => true,
                RequestView::Exit { .. } => state.phase is AwaitExitHook,
                _ => false,
            }
        },
{
}

} // verus!
