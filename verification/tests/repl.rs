use sbsh::api::alias_add;
use sbsh::cmd_runner::aliases::AliasTable;
use sbsh::repl::ConfigOutcome;
use sbsh::repl::Repl;
use sbsh::repl::Request;
use sbsh::repl::Response;
use sbsh::repl::Step;
use sbsh::script::HookCall;
use sbsh::script::HookOutcome;

fn strings(words: &[&str]) -> Vec<String> {
    words.iter().map(|word| word.to_string()).collect()
}

fn text(value: &str) -> Option<String> {
    Some(value.to_string())
}

fn step(repl: &mut Repl, table: &AliasTable, response: Response) -> Step {
    repl.step(table, response).expect("the answer fits the request")
}

fn quiet(repl: &mut Repl, table: &AliasTable, response: Response) -> Request {
    let Step { report, request } = step(repl, table, response);
    assert_eq!(report, None);
    request
}

fn is_read_variable(request: &Request, expected: &str) -> bool {
    matches!(request, Request::ReadVariable { name } if name == expected)
}

fn is_repeat(request: &Request) -> bool {
    matches!(request, Request::CallHook { call: HookCall::Repeat })
}

fn is_on_input(request: &Request, expected: &str) -> bool {
    matches!(request, Request::CallHook { call: HookCall::OnInput { line } } if line == expected)
}

fn is_on_cd(request: &Request, from: &str, to: &str) -> bool {
    matches!(request, Request::CallHook { call: HookCall::OnCd { old_dir, new_dir } }
        if old_dir == from && new_dir == to)
}

fn is_on_exit(request: &Request, expected: &[&str]) -> bool {
    matches!(request, Request::CallHook { call: HookCall::OnExit { args } }
        if *args == strings(expected))
}

fn is_read_line(request: &Request, expected: &str) -> bool {
    matches!(request, Request::ReadLine { prompt } if prompt == expected)
}

fn is_spawn(request: &Request, expected: &str) -> bool {
    matches!(request, Request::Spawn { command } if command == expected)
}

fn is_change_directory(request: &Request, expected: &str) -> bool {
    matches!(request, Request::ChangeDirectory { target } if target == expected)
}

fn is_save_history(request: &Request, expected: &str) -> bool {
    matches!(request, Request::SaveHistory { path } if path == expected)
}

fn is_exit(request: &Request, expected: i32) -> bool {
    matches!(request, Request::Exit { code } if *code == expected)
}

fn hook(outcome: HookOutcome) -> Response {
    Response::Hook { outcome }
}

fn line(text: &str) -> Response {
    Response::Line { text: text.to_string() }
}

/// A machine that has started with hooks and waits for a line.
fn with_hooks(table: &AliasTable) -> Repl {
    let (mut repl, first) = Repl::new();
    assert!(is_read_variable(&first, "HOME"));
    quiet(&mut repl, table, Response::Variable { value: text("/home/me") });
    quiet(&mut repl, table, Response::Config { config: ConfigOutcome::Loaded });
    quiet(&mut repl, table, Response::Variable { value: text("$ ") });
    let request = quiet(&mut repl, table, Response::Done);
    assert!(is_repeat(&request));
    let request = quiet(&mut repl, table, hook(HookOutcome::Succeeded));
    assert!(is_read_variable(&request, "PS1"));
    let request = quiet(&mut repl, table, Response::Variable { value: text("$ ") });
    assert!(is_read_line(&request, "$ "));
    assert!(repl.hooks_installed());
    repl
}

/// A machine that has started without hooks and waits for a line.
fn without_hooks(table: &AliasTable) -> Repl {
    let (mut repl, _) = Repl::new();
    quiet(&mut repl, table, Response::Variable { value: text("/home/me") });
    let failed = ConfigOutcome::CompileFailed { message: "no such file".to_string() };
    step(&mut repl, table, Response::Config { config: failed });
    quiet(&mut repl, table, Response::Variable { value: text("$ ") });
    let request = quiet(&mut repl, table, Response::Done);
    assert!(is_read_variable(&request, "PS1"));
    let request = quiet(&mut repl, table, Response::Variable { value: text("$ ") });
    assert!(is_read_line(&request, "$ "));
    assert!(!repl.hooks_installed());
    repl
}

#[test]
fn the_machine_starts_by_loading_the_configuration_under_home() {
    let table = AliasTable::new();
    let (mut repl, first) = Repl::new();
    assert!(is_read_variable(&first, "HOME"));
    assert!(!repl.is_stopped());
    let request = quiet(&mut repl, &table, Response::Variable { value: text("/home/me") });
    assert!(matches!(&request, Request::LoadConfig { path } if path == "/home/me/.sbshrc.rhai"));
    let request = quiet(&mut repl, &table, Response::Config { config: ConfigOutcome::Loaded });
    assert!(is_read_variable(&request, "PS1"));
    let request = quiet(&mut repl, &table, Response::Variable { value: text("> ") });
    assert!(
        matches!(&request, Request::LoadHistory { path } if path == "/home/me/.sbsh_history.txt")
    );
    let request = quiet(&mut repl, &table, Response::Done);
    assert!(is_repeat(&request));
}

#[test]
fn without_home_the_files_lie_under_the_root() {
    let table = AliasTable::new();
    let (mut repl, _) = Repl::new();
    let request = quiet(&mut repl, &table, Response::Variable { value: None });
    assert!(matches!(&request, Request::LoadConfig { path } if path == "/.sbshrc.rhai"));
    step(&mut repl, &table, Response::Config { config: ConfigOutcome::Loaded });
    let request = quiet(&mut repl, &table, Response::Variable { value: text("> ") });
    assert!(matches!(&request, Request::LoadHistory { path } if path == "/.sbsh_history.txt"));
}

#[test]
fn a_configuration_that_fails_to_compile_leaves_a_shell_without_hooks() {
    let mut table = AliasTable::new();
    alias_add(&mut table, "ll", "ls -la");
    let (mut repl, _) = Repl::new();
    quiet(&mut repl, &table, Response::Variable { value: text("/home/me") });
    let failed = ConfigOutcome::CompileFailed { message: "syntax error".to_string() };
    let Step { report, request } = step(&mut repl, &table, Response::Config { config: failed });
    assert_eq!(
        report,
        text("Warning: Failed to compile config: syntax error. Using default settings.")
    );
    assert!(is_read_variable(&request, "PS1"));
    assert!(!repl.hooks_installed());
    let Step { report, request } = step(&mut repl, &table, Response::Variable { value: None });
    assert_eq!(report, text("Warning: PS1 not set. Using default prompt: Fix config>> "));
    assert!(matches!(request, Request::LoadHistory { .. }));
    let request = quiet(&mut repl, &table, Response::Done);
    assert!(is_read_variable(&request, "PS1"));
    let Step { report, request } = step(&mut repl, &table, Response::Variable { value: None });
    assert_eq!(report, text("Warning: PS1 became unset, using default."));
    assert!(is_read_line(&request, "Fix config>> "));
    let request = quiet(&mut repl, &table, line("ll /tmp"));
    assert!(is_spawn(&request, "ls -la /tmp"));
    let request = quiet(&mut repl, &table, Response::Spawned { error: None });
    assert!(is_read_variable(&request, "PS1"));
}

#[test]
fn a_configuration_that_fails_to_run_leaves_a_shell_without_hooks() {
    let table = AliasTable::new();
    let (mut repl, _) = Repl::new();
    quiet(&mut repl, &table, Response::Variable { value: text("/home/me") });
    let failed = ConfigOutcome::RunFailed { message: "boom".to_string() };
    let Step { report, request } = step(&mut repl, &table, Response::Config { config: failed });
    assert_eq!(report, text("Warning: Failed to execute config: boom. Continuing with defaults."));
    assert!(is_read_variable(&request, "PS1"));
    assert!(!repl.hooks_installed());
}

#[test]
fn a_turn_with_hooks_calls_repeat_then_on_input_then_dispatches() {
    let table = AliasTable::new();
    let mut repl = with_hooks(&table);
    let request = quiet(&mut repl, &table, line("ls -la"));
    assert!(is_on_input(&request, "ls -la"));
    let request = quiet(&mut repl, &table, hook(HookOutcome::Succeeded));
    assert!(is_spawn(&request, "ls -la"));
    let request = quiet(&mut repl, &table, Response::Spawned { error: None });
    assert!(is_repeat(&request));
    let request = quiet(&mut repl, &table, hook(HookOutcome::NotDefined));
    assert!(is_read_variable(&request, "PS1"));
    let request = quiet(&mut repl, &table, Response::Variable { value: text("new> ") });
    assert!(is_read_line(&request, "new> "));
}

#[test]
fn on_input_gets_the_line_as_it_was_typed() {
    let mut table = AliasTable::new();
    alias_add(&mut table, "ll", "ls -la");
    let mut repl = with_hooks(&table);
    let request = quiet(&mut repl, &table, line("  ll   /tmp "));
    assert!(is_on_input(&request, "  ll   /tmp "));
    let request = quiet(&mut repl, &table, hook(HookOutcome::Succeeded));
    assert!(is_spawn(&request, "ls -la /tmp"));
}

#[test]
fn the_line_is_resolved_with_the_aliases_after_the_hook() {
    let mut table = AliasTable::new();
    let mut repl = with_hooks(&table);
    quiet(&mut repl, &table, line("ll /tmp"));
    alias_add(&mut table, "ll", "ls -la");
    let request = quiet(&mut repl, &table, hook(HookOutcome::Succeeded));
    assert!(is_spawn(&request, "ls -la /tmp"));
}

#[test]
fn an_undefined_hook_is_passed_over_in_silence() {
    let table = AliasTable::new();
    let mut repl = with_hooks(&table);
    quiet(&mut repl, &table, line("ls"));
    let Step { report, request } = step(&mut repl, &table, hook(HookOutcome::NotDefined));
    assert_eq!(report, None);
    assert!(is_spawn(&request, "ls"));
}

#[test]
fn a_failed_hook_is_reported_and_the_loop_goes_on() {
    let table = AliasTable::new();
    let mut repl = with_hooks(&table);
    quiet(&mut repl, &table, line("ls"));
    let failed = HookOutcome::Failed { message: "boom".to_string() };
    let Step { report, request } = step(&mut repl, &table, hook(failed));
    assert_eq!(report, text("Error in on_input hook: boom"));
    assert!(is_spawn(&request, "ls"));
    let request = quiet(&mut repl, &table, Response::Spawned { error: None });
    assert!(is_repeat(&request));
    let failed = HookOutcome::Failed { message: "again".to_string() };
    let Step { report, request } = step(&mut repl, &table, hook(failed));
    assert_eq!(report, text("Error in repeat hook: again"));
    assert!(is_read_variable(&request, "PS1"));
}

#[test]
fn a_blank_line_starts_the_next_turn() {
    let table = AliasTable::new();
    let mut repl = without_hooks(&table);
    let request = quiet(&mut repl, &table, line("   "));
    assert!(is_read_variable(&request, "PS1"));
    let mut repl = with_hooks(&table);
    let request = quiet(&mut repl, &table, line(""));
    assert!(is_on_input(&request, ""));
    let request = quiet(&mut repl, &table, hook(HookOutcome::Succeeded));
    assert!(is_repeat(&request));
}

#[test]
fn a_program_that_cannot_be_started_is_reported() {
    let table = AliasTable::new();
    let mut repl = without_hooks(&table);
    let request = quiet(&mut repl, &table, line("no-such-program"));
    assert!(is_spawn(&request, "no-such-program"));
    let failed = Response::Spawned { error: text("No such file or directory") };
    let Step { report, request } = step(&mut repl, &table, failed);
    assert_eq!(report, text("Error executing command: No such file or directory"));
    assert!(is_read_variable(&request, "PS1"));
}

#[test]
fn clr_clears_the_screen() {
    let table = AliasTable::new();
    let mut repl = without_hooks(&table);
    let request = quiet(&mut repl, &table, line("clr"));
    assert!(matches!(request, Request::ClearScreen));
    let request = quiet(&mut repl, &table, Response::Done);
    assert!(is_read_variable(&request, "PS1"));
}

#[test]
fn cd_changes_the_directory_and_calls_on_cd() {
    let table = AliasTable::new();
    let mut repl = with_hooks(&table);
    quiet(&mut repl, &table, line("cd /tmp"));
    let request = quiet(&mut repl, &table, hook(HookOutcome::Succeeded));
    assert!(is_change_directory(&request, "/tmp"));
    let changed = Response::DirectoryChanged { old_dir: text("/home/me"), new_dir: text("/tmp") };
    let request = quiet(&mut repl, &table, changed);
    assert!(is_on_cd(&request, "/home/me", "/tmp"));
    let request = quiet(&mut repl, &table, hook(HookOutcome::Succeeded));
    assert!(is_repeat(&request));
}

#[test]
fn on_cd_gets_the_target_where_the_new_directory_is_not_known() {
    let table = AliasTable::new();
    let mut repl = with_hooks(&table);
    quiet(&mut repl, &table, line("cd ../x"));
    quiet(&mut repl, &table, hook(HookOutcome::Succeeded));
    let changed = Response::DirectoryChanged { old_dir: None, new_dir: None };
    let request = quiet(&mut repl, &table, changed);
    assert!(is_on_cd(&request, "", "../x"));
}

#[test]
fn cd_without_hooks_calls_nothing() {
    let table = AliasTable::new();
    let mut repl = without_hooks(&table);
    let request = quiet(&mut repl, &table, line("cd /tmp"));
    assert!(is_change_directory(&request, "/tmp"));
    let changed = Response::DirectoryChanged { old_dir: text("/home/me"), new_dir: text("/tmp") };
    let request = quiet(&mut repl, &table, changed);
    assert!(is_read_variable(&request, "PS1"));
}

#[test]
fn cd_without_argument_goes_to_the_home_directory() {
    let table = AliasTable::new();
    let mut repl = without_hooks(&table);
    let request = quiet(&mut repl, &table, line("cd"));
    assert!(is_read_variable(&request, "HOME"));
    let request = quiet(&mut repl, &table, Response::Variable { value: text("/home/me") });
    assert!(is_change_directory(&request, "/home/me"));
}

#[test]
fn cd_without_argument_and_without_home_goes_to_the_root() {
    let table = AliasTable::new();
    let mut repl = without_hooks(&table);
    quiet(&mut repl, &table, line("cd"));
    let request = quiet(&mut repl, &table, Response::Variable { value: None });
    assert!(is_change_directory(&request, "/"));
}

#[test]
fn a_cd_that_fails_is_reported_and_calls_no_hook_of_its_own() {
    let table = AliasTable::new();
    let mut repl = with_hooks(&table);
    quiet(&mut repl, &table, line("cd /no/such/dir"));
    let request = quiet(&mut repl, &table, hook(HookOutcome::Succeeded));
    assert!(is_change_directory(&request, "/no/such/dir"));
    let message = "No such file or directory (os error 2)".to_string();
    let failed = Response::DirectoryUnchanged { message };
    let Step { report, request } = step(&mut repl, &table, failed);
    assert_eq!(report, text("cd: /no/such/dir: No such file or directory (os error 2)"));
    assert!(is_repeat(&request));
}

#[test]
fn exit_calls_on_exit_with_its_arguments_and_ends_with_the_code() {
    let table = AliasTable::new();
    let mut repl = with_hooks(&table);
    quiet(&mut repl, &table, line("exit 7"));
    let request = quiet(&mut repl, &table, hook(HookOutcome::Succeeded));
    assert!(is_on_exit(&request, &["exit", "7"]));
    assert!(!repl.is_stopped());
    let request = quiet(&mut repl, &table, hook(HookOutcome::Succeeded));
    assert!(is_exit(&request, 7));
    assert!(repl.is_stopped());
}

#[test]
fn exit_without_hooks_ends_at_once() {
    let table = AliasTable::new();
    let mut repl = without_hooks(&table);
    let request = quiet(&mut repl, &table, line("exit 7"));
    assert!(is_exit(&request, 7));
    assert!(repl.is_stopped());
    let mut repl = without_hooks(&table);
    assert!(is_exit(&quiet(&mut repl, &table, line("exit")), 0));
    let mut repl = without_hooks(&table);
    assert!(is_exit(&quiet(&mut repl, &table, line("exit abc")), 0));
}

#[test]
fn exit_ends_with_its_code_also_when_on_exit_fails() {
    let table = AliasTable::new();
    let mut repl = with_hooks(&table);
    quiet(&mut repl, &table, line("exit 3"));
    quiet(&mut repl, &table, hook(HookOutcome::NotDefined));
    let failed = HookOutcome::Failed { message: "boom".to_string() };
    let Step { report, request } = step(&mut repl, &table, hook(failed));
    assert_eq!(report, text("Error in on_exit hook: boom"));
    assert!(is_exit(&request, 3));
}

#[test]
fn the_end_of_input_calls_on_exit_saves_the_history_and_ends_with_code_0() {
    let table = AliasTable::new();
    let mut repl = with_hooks(&table);
    let request = quiet(&mut repl, &table, Response::EndOfInput);
    assert!(is_on_exit(&request, &[]));
    let request = quiet(&mut repl, &table, hook(HookOutcome::NotDefined));
    assert!(is_save_history(&request, "/home/me/.sbsh_history.txt"));
    assert!(!repl.is_stopped());
    let request = quiet(&mut repl, &table, Response::Done);
    assert!(is_exit(&request, 0));
    assert!(repl.is_stopped());
}

#[test]
fn the_end_of_input_without_hooks_saves_the_history_at_once() {
    let table = AliasTable::new();
    let mut repl = without_hooks(&table);
    let request = quiet(&mut repl, &table, Response::EndOfInput);
    assert!(is_save_history(&request, "/home/me/.sbsh_history.txt"));
    let request = quiet(&mut repl, &table, Response::Done);
    assert!(is_exit(&request, 0));
}

#[test]
fn a_failure_to_read_is_reported_and_ends_the_input() {
    let table = AliasTable::new();
    let mut repl = without_hooks(&table);
    let failed = Response::ReadFailed { message: "broken pipe".to_string() };
    let Step { report, request } = step(&mut repl, &table, failed);
    assert_eq!(report, text("Readline error: broken pipe"));
    assert!(is_save_history(&request, "/home/me/.sbsh_history.txt"));
}

#[test]
fn an_answer_that_does_not_fit_is_handed_back() {
    let table = AliasTable::new();
    let mut repl = without_hooks(&table);
    let unexpected = repl.step(&table, Response::Done).expect_err("no line was read");
    assert!(matches!(unexpected.response, Response::Done));
    let unexpected = repl
        .step(&table, hook(HookOutcome::Failed { message: "boom".to_string() }))
        .expect_err("no hook was called");
    assert!(matches!(
        unexpected.response,
        Response::Hook { outcome: HookOutcome::Failed { message } } if message == "boom"
    ));
    let request = quiet(&mut repl, &table, line("ls"));
    assert!(is_spawn(&request, "ls"));
}

#[test]
fn a_stopped_machine_takes_no_answer() {
    let table = AliasTable::new();
    let mut repl = without_hooks(&table);
    quiet(&mut repl, &table, line("exit"));
    assert!(repl.is_stopped());
    assert!(repl.step(&table, Response::Done).is_err());
    assert!(repl.step(&table, line("ls")).is_err());
    assert!(repl.step(&table, Response::EndOfInput).is_err());
    assert!(repl.is_stopped());
}

#[test]
fn a_machine_for_one_command_runs_it_and_finishes() {
    let mut table = AliasTable::new();
    alias_add(&mut table, "ll", "ls -la");
    let (mut repl, first) = Repl::for_command(true, &table, "ll /tmp");
    assert!(is_spawn(&first, "ls -la /tmp"));
    assert!(!repl.is_stopped());
    assert!(repl.hooks_installed());
    let request = quiet(&mut repl, &table, Response::Spawned { error: None });
    assert!(matches!(request, Request::Finish));
    assert!(repl.is_stopped());
    assert!(repl.step(&table, Response::Done).is_err());
}

#[test]
fn a_machine_for_a_blank_command_finishes_at_once() {
    let table = AliasTable::new();
    let (repl, first) = Repl::for_command(true, &table, "  ");
    assert!(matches!(first, Request::Finish));
    assert!(repl.is_stopped());
}

#[test]
fn a_machine_for_one_command_changes_directory_and_calls_on_cd() {
    let table = AliasTable::new();
    let (mut repl, first) = Repl::for_command(true, &table, "cd");
    assert!(is_read_variable(&first, "HOME"));
    let request = quiet(&mut repl, &table, Response::Variable { value: text("/home/me") });
    assert!(is_change_directory(&request, "/home/me"));
    let changed = Response::DirectoryChanged { old_dir: text("/tmp"), new_dir: text("/home/me") };
    let request = quiet(&mut repl, &table, changed);
    assert!(is_on_cd(&request, "/tmp", "/home/me"));
    let request = quiet(&mut repl, &table, hook(HookOutcome::Succeeded));
    assert!(matches!(request, Request::Finish));
}

#[test]
fn a_machine_for_one_command_reports_a_cd_that_fails_and_finishes() {
    let table = AliasTable::new();
    let (mut repl, first) = Repl::for_command(false, &table, "cd /no/such/dir");
    assert!(is_change_directory(&first, "/no/such/dir"));
    let failed = Response::DirectoryUnchanged { message: "not found".to_string() };
    let Step { report, request } = step(&mut repl, &table, failed);
    assert_eq!(report, text("cd: /no/such/dir: not found"));
    assert!(matches!(request, Request::Finish));
}

#[test]
fn a_machine_for_one_command_ends_the_process_on_exit() {
    let table = AliasTable::new();
    let (mut repl, first) = Repl::for_command(true, &table, "exit 3");
    assert!(is_on_exit(&first, &["exit", "3"]));
    let request = quiet(&mut repl, &table, hook(HookOutcome::NotDefined));
    assert!(is_exit(&request, 3));
    let (repl, first) = Repl::for_command(false, &table, "exit 4");
    assert!(is_exit(&first, 4));
    assert!(repl.is_stopped());
}

#[test]
fn a_machine_for_one_command_clears_the_screen() {
    let table = AliasTable::new();
    let (mut repl, first) = Repl::for_command(true, &table, "clr");
    assert!(matches!(first, Request::ClearScreen));
    let request = quiet(&mut repl, &table, Response::Done);
    assert!(matches!(request, Request::Finish));
}
