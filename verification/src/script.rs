//! The script host: the hooks that a script may define, how a hook is called
//! in the script engine, and how the engine's answer is read.
//!
//! A hook that the script does not define is no failure. The engine reports
//! it as a missing function whose signature is the hook's bare name; any
//! other error, a missing function inside a hook's body among them, is a
//! failure of the hook. Where no program is installed, no hook is defined.
//!
//! A call of a hook runs the hook's function and nothing else: the
//! statements at the top of the script ran once, when the script was loaded,
//! and do not run again.

use vstd::prelude::*;
use vstd::string::StringExecFns;

verus! {

/// The hooks that the shell calls in a script.
#[derive(Clone, Copy, Debug, PartialEq, Eq, Structural)]
pub enum HookName {
    /// Called at the start of each turn of the loop, without arguments.
    Repeat,
    /// Called with each line of input.
    OnInput,
    /// Called after a change of directory, with the old and the new one.
    OnCd,
    /// Called before the shell ends, with one list: the argument vector of
    /// `exit`, or the empty list when the input has ended.
    OnExit,
}

impl HookName {
    /// The name of the script function that implements the hook.
    pub open spec fn spec_name(self) -> Seq<char> {
        match self {
            HookName::Repeat => "repeat"@,
            HookName::OnInput => "on_input"@,
            HookName::OnCd => "on_cd"@,
            HookName::OnExit => "on_exit"@,
        }
    }

    /// The name of the script function that implements the hook.
    pub fn name(self) -> (name: &'static str)
        ensures
            name@ == self.spec_name(),
    {
        match self {
            HookName::Repeat => "repeat",
            HookName::OnInput => "on_input",
            HookName::OnCd => "on_cd",
            HookName::OnExit => "on_exit",
        }
    }
}

/// The call of a hook: the hook and its arguments.
#[derive(Debug)]
pub enum HookCall {
    /// `repeat()`
    Repeat,
    /// `on_input(line)`
    OnInput { line: String },
    /// `on_cd(old_dir, new_dir)`
    OnCd { old_dir: String, new_dir: String },
    /// `on_exit(args)`
    OnExit { args: Vec<String> },
}

/// The view of a `HookCall`.
pub ghost enum HookCallView {
    Repeat,
    OnInput { line: Seq<char> },
    OnCd { old_dir: Seq<char>, new_dir: Seq<char> },
    OnExit { args: Seq<Seq<char>> },
}

impl View for HookCall {
    type V = HookCallView;

    open spec fn view(&self) -> HookCallView {
        match self {
            HookCall::Repeat => HookCallView::Repeat,
            HookCall::OnInput { line } => HookCallView::OnInput { line: line@ },
            HookCall::OnCd { old_dir, new_dir } => HookCallView::OnCd {
                old_dir: old_dir@,
                new_dir: new_dir@,
            },
            HookCall::OnExit { args } => HookCallView::OnExit { args: args.deep_view() },
        }
    }
}

impl HookCallView {
    /// The hook that is called.
    pub open spec fn hook(self) -> HookName {
        match self {
            HookCallView::Repeat => HookName::Repeat,
            HookCallView::OnInput { .. } => HookName::OnInput,
            HookCallView::OnCd { .. } => HookName::OnCd,
            HookCallView::OnExit { .. } => HookName::OnExit,
        }
    }
}

impl HookCall {
    /// The hook that is called.
    pub fn hook(&self) -> (hook: HookName)
        ensures
            hook == self@.hook(),
    {
        match self {
            HookCall::Repeat => HookName::Repeat,
            HookCall::OnInput { .. } => HookName::OnInput,
            HookCall::OnCd { .. } => HookName::OnCd,
            HookCall::OnExit { .. } => HookName::OnExit,
        }
    }
}

/// An argument of a hook, as the script gets it.
#[derive(Debug)]
pub enum HookArgument {
    /// A string.
    Text { text: String },
    /// An array of strings.
    List { items: Vec<String> },
}

/// The view of a `HookArgument`.
pub ghost enum HookArgumentView {
    Text { text: Seq<char> },
    List { items: Seq<Seq<char>> },
}

impl View for HookArgument {
    type V = HookArgumentView;

    open spec fn view(&self) -> HookArgumentView {
        match self {
            HookArgument::Text { text } => HookArgumentView::Text { text: text@ },
            HookArgument::List { items } => HookArgumentView::List { items: items.deep_view() },
        }
    }
}

/// The arguments that the script gets with `call`, in their order: none for
/// `repeat`, the line for `on_input`, the directory that was left and the one
/// that was entered for `on_cd`, and one list for `on_exit`.
pub open spec fn arguments(call: HookCallView) -> Seq<HookArgumentView> {
    match call {
        HookCallView::Repeat => Seq::empty(),
        HookCallView::OnInput { line } => seq![HookArgumentView::Text { text: line }],
        HookCallView::OnCd { old_dir, new_dir } => seq![
            HookArgumentView::Text { text: old_dir },
            HookArgumentView::Text { text: new_dir },
        ],
        HookCallView::OnExit { args } => seq![HookArgumentView::List { items: args }],
    }
}

/// The arguments that the script gets with `call`, in their order.
pub fn hook_arguments(call: &HookCall) -> (args: Vec<HookArgument>)
    ensures
        args@.map_values(|a: HookArgument| a@) == arguments(call@),
{
    let mut args: Vec<HookArgument> = Vec::new();
    match call {
        HookCall::Repeat => {},
        HookCall::OnInput { line } => {
            args.push(HookArgument::Text { text: line.clone() });
        },
        HookCall::OnCd { old_dir, new_dir } => {
            args.push(HookArgument::Text { text: old_dir.clone() });
            args.push(HookArgument::Text { text: new_dir.clone() });
        },
        HookCall::OnExit { args: items } => {
            args.push(HookArgument::List { items: items.clone() });
        },
    }
    assert(args@.map_values(|a: HookArgument| a@) =~= arguments(call@));
    args
}

/// An error of the script engine, as plain values.
#[derive(Debug)]
pub struct ScriptError {
    /// The signature of the function that was not found, when the error is
    /// that a function was not found.
    pub missing: Option<String>,
    /// The engine's message.
    pub message: String,
}

/// The view of a `ScriptError`.
pub ghost struct ScriptErrorView {
    pub missing: Option<Seq<char>>,
    pub message: Seq<char>,
}

impl View for ScriptError {
    type V = ScriptErrorView;

    open spec fn view(&self) -> ScriptErrorView {
        ScriptErrorView { missing: self.missing.deep_view(), message: self.message@ }
    }
}

/// How the call of a hook ended.
#[derive(Debug)]
pub enum HookOutcome {
    /// The script defines the hook, and it ran to its end.
    Succeeded,
    /// The script does not define the hook.
    NotDefined,
    /// The script defines the hook, and it failed.
    Failed { message: String },
}

/// The view of a `HookOutcome`.
pub ghost enum HookOutcomeView {
    Succeeded,
    NotDefined,
    Failed { message: Seq<char> },
}

impl View for HookOutcome {
    type V = HookOutcomeView;

    open spec fn view(&self) -> HookOutcomeView {
        match self {
            HookOutcome::Succeeded => HookOutcomeView::Succeeded,
            HookOutcome::NotDefined => HookOutcomeView::NotDefined,
            HookOutcome::Failed { message } => HookOutcomeView::Failed { message: message@ },
        }
    }
}

/// The view of what the engine answers to a call.
pub open spec fn answer_view(answer: Result<(), ScriptError>) -> Result<(), ScriptErrorView> {
    match answer {
        Ok(_) => Ok(()),
        Err(error) => Err(error@),
    }
}

/// How the call of `hook` ended, given the engine's answer: the hook is not
/// defined exactly when the function that the engine missed is the hook
/// itself.
pub open spec fn classify(hook: HookName, answer: Result<(), ScriptErrorView>) -> HookOutcomeView {
    match answer {
        Ok(_) => HookOutcomeView::Succeeded,
        Err(error) => if error.missing == Some(hook.spec_name()) {
            HookOutcomeView::NotDefined
        } else {
            HookOutcomeView::Failed { message: error.message }
        },
    }
}

/// Reads the engine's answer to a call of `hook`.
pub fn hook_outcome(hook: HookName, answer: Result<(), ScriptError>) -> (outcome: HookOutcome)
    ensures
        outcome@ == classify(hook, answer_view(answer)),
{
    match answer {
        Ok(_) => HookOutcome::Succeeded,
        Err(error) => {
            let ScriptError { missing, message } = error;
            let is_hook = match missing {
                Some(signature) => signature == String::from_str(hook.name()),
                None => false,
            };
            if is_hook {
                HookOutcome::NotDefined
            } else {
                HookOutcome::Failed { message }
            }
        },
    }
}

/// The script engine, `rhai::Engine`. Nothing is known of what it holds.
#[verifier::external_type_specification]
#[verifier::external_body]
pub struct ExEngine(rhai::Engine);

/// A compiled script, `rhai::AST`. Nothing is known of what it holds.
#[verifier::external_type_specification]
#[verifier::external_body]
pub struct ExProgram(rhai::AST);

/// A value of a script, `rhai::Dynamic`. Nothing is known of what it holds.
#[verifier::external_type_specification]
#[verifier::external_body]
pub struct ExValue(rhai::Dynamic);

/// Makes a script's string of `text`, by `rhai::Dynamic::from`. Nothing is
/// claimed of the value.
#[verifier::external_body]
fn script_text(text: &String) -> (value: rhai::Dynamic) {
    rhai::Dynamic::from(text.clone())
}

/// Makes a script's array of strings of `items`, by the conversion of a
/// `Vec` into a `rhai::Dynamic`. Nothing is claimed of the value.
#[verifier::external_body]
fn script_list(items: &Vec<String>) -> (value: rhai::Dynamic) {
    items.clone().into()
}

/// Calls `rhai::Engine::call_fn_with_options` for the function `name` of
/// `program`, with a fresh scope, the arguments `args` and no result
/// expected. The options are those of `CallFnOptions::new` but for
/// `eval_ast(false)`, which keeps the engine from running the statements at
/// the top of the script before the call. Nothing is claimed
/// of the answer: it depends on the script. An error comes back as its
/// message, together with the signature it carries when it is
/// `EvalAltResult::ErrorFunctionNotFound`.
#[verifier::external_body]
fn engine_call_fn(
    engine: &rhai::Engine,
    program: &rhai::AST,
    name: &str,
    args: Vec<rhai::Dynamic>,
) -> (answer: Result<(), ScriptError>) {
    let options = rhai::CallFnOptions::new().eval_ast(false);
    let mut scope = rhai::Scope::new();
    match engine.call_fn_with_options::<()>(options, &mut scope, program, name, args) {
        Ok(()) => Ok(()),
        Err(error) => {
            let message = error.to_string();
            match *error {
                rhai::EvalAltResult::ErrorFunctionNotFound(signature, _) => Err(
                    ScriptError { missing: Some(signature), message },
                ),
                _ => Err(ScriptError { missing: None, message }),
            }
        },
    }
}

/// Makes the call `call` in `program`, where a program is installed, and
/// says how it ended. Without a program the hook is not defined, and the
/// engine is not asked. With one, the engine is handed the hook's name and
/// `hook_arguments(call)`; how the call then ends is for the script to
/// decide, and nothing is promised of it.
pub fn call_hook(engine: &rhai::Engine, program: Option<&rhai::AST>, call: &HookCall) -> (outcome:
    HookOutcome)
    ensures
        program is None ==> outcome@ == HookOutcomeView::NotDefined,
{
    match program {
        None => HookOutcome::NotDefined,
        Some(program) => {
            let plain = hook_arguments(call);
            let mut args: Vec<rhai::Dynamic> = Vec::new();
            let mut i: usize = 0;
            while i < plain.len()
                invariant
                    i <= plain.len(),
                    args.len() == i,
                decreases plain.len() - i,
            {
                let value = match &plain[i] {
                    HookArgument::Text { text } => script_text(text),
                    HookArgument::List { items } => script_list(items),
                };
                args.push(value);
                i = i + 1;
            }
            let hook = call.hook();
            hook_outcome(hook, engine_call_fn(engine, program, hook.name(), args))
        },
    }
}

/// The hooks have different names.
pub proof fn law_hook_names_differ(one: HookName, other: HookName)
    ensures
        one.spec_name() == other.spec_name() <==> one == other,
{
    reveal_strlit("repeat");
    reveal_strlit("on_input");
    reveal_strlit("on_cd");
    reveal_strlit("on_exit");
    if one != other {
        assert(one.spec_name().len() != other.spec_name().len() || one.spec_name()[4]
            != other.spec_name()[4]);
    }
}

/// A hook counts as not defined exactly when the engine missed the hook
/// itself: on every such answer, whatever its message, and on no other.
pub proof fn law_not_defined_means_the_hook_is_missing(
    hook: HookName,
    answer: Result<(), ScriptErrorView>,
)
    ensures
        classify(hook, answer) is NotDefined <==> (answer matches Err(error) && error.missing
            == Some(hook.spec_name())),
        classify(hook, answer) is Succeeded <==> answer is Ok,
        classify(hook, answer) matches HookOutcomeView::Failed { message } ==> (answer matches Err(
            error,
        ) && error.message == message),
{
}

} // verus!
