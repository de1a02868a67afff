use std::cell::RefCell;
use std::collections::HashMap;
use std::collections::VecDeque;
use std::rc::Rc;

use sbsh::api::alias_add;
use sbsh::cmd_runner::aliases::AliasTable;
use sbsh::repl::ConfigOutcome;
use sbsh::repl::Repl;
use sbsh::repl::Request;
use sbsh::repl::Response;
use sbsh::script::call_hook;

/// What a session touches, kept in memory.
struct World {
    variables: HashMap<String, String>,
    lines: VecDeque<String>,
    directory: String,
    directories: Vec<String>,
    prompts: Vec<String>,
    spawned: Vec<String>,
    reports: Vec<String>,
    loaded_history: Vec<String>,
    saved_history: Vec<String>,
    cleared: usize,
}

impl World {
    fn new(lines: &[&str]) -> World {
        let mut variables = HashMap::new();
        variables.insert("HOME".to_string(), "/home/me".to_string());
        World {
            variables,
            lines: lines.iter().map(|line| line.to_string()).collect(),
            directory: "/start".to_string(),
            directories: vec!["/home/me".to_string(), "/tmp".to_string(), "/work".to_string()],
            prompts: Vec::new(),
            spawned: Vec::new(),
            reports: Vec::new(),
            loaded_history: Vec::new(),
            saved_history: Vec::new(),
            cleared: 0,
        }
    }
}

/// Runs a session on `world` with the configuration `script`, if there is
/// one, and gives the code with which the shell ends.
fn run(world: &Rc<RefCell<World>>, script: Option<&str>) -> i32 {
    let table = Rc::new(RefCell::new(AliasTable::new()));
    let mut engine = rhai::Engine::new();
    let shared = Rc::clone(world);
    engine.register_fn("set_var", move |name: &str, value: &str| {
        shared.borrow_mut().variables.insert(name.to_string(), value.to_string());
    });
    let aliases = Rc::clone(&table);
    engine.register_fn("alias_add", move |name: &str, command: &str| {
        alias_add(&mut aliases.borrow_mut(), name, command);
    });
    let mut program: Option<rhai::AST> = None;

    let (mut repl, mut request) = Repl::new();
    loop {
        let response = match request {
            Request::ReadVariable { name } => {
                Response::Variable { value: world.borrow().variables.get(&name).cloned() }
            }
            Request::LoadConfig { path } => {
                assert_eq!(path, "/home/me/.sbshrc.rhai");
                let config = match script.map(|source| engine.compile(source)) {
                    None => ConfigOutcome::CompileFailed { message: "no such file".to_string() },
                    Some(Err(error)) => ConfigOutcome::CompileFailed { message: error.to_string() },
                    Some(Ok(ast)) => {
                        program = Some(ast.clone());
                        match engine.run_ast(&ast) {
                            Ok(()) => ConfigOutcome::Loaded,
                            Err(error) => ConfigOutcome::RunFailed { message: error.to_string() },
                        }
                    }
                };
                Response::Config { config }
            }
            Request::LoadHistory { path } => {
                world.borrow_mut().loaded_history.push(path);
                Response::Done
            }
            Request::CallHook { call } => {
                Response::Hook { outcome: call_hook(&engine, program.as_ref(), &call) }
            }
            Request::ReadLine { prompt } => {
                let mut world = world.borrow_mut();
                world.prompts.push(prompt);
                match world.lines.pop_front() {
                    Some(text) => Response::Line { text },
                    None => Response::EndOfInput,
                }
            }
            Request::ChangeDirectory { target } => {
                let mut world = world.borrow_mut();
                if world.directories.contains(&target) {
                    let old_dir = Some(std::mem::replace(&mut world.directory, target.clone()));
                    Response::DirectoryChanged { old_dir, new_dir: Some(target) }
                } else {
                    Response::DirectoryUnchanged { message: "no such directory".to_string() }
                }
            }
            Request::ClearScreen => {
                world.borrow_mut().cleared += 1;
                Response::Done
            }
            Request::Spawn { command } => {
                let error = if command.starts_with("missing") {
                    Some("not found".to_string())
                } else {
                    None
                };
                world.borrow_mut().spawned.push(command);
                Response::Spawned { error }
            }
            Request::SaveHistory { path } => {
                world.borrow_mut().saved_history.push(path);
                Response::Done
            }
            Request::Exit { code } => {
                assert!(repl.is_stopped());
                return code;
            }
            Request::Finish => panic!("the loop does not finish, it exits"),
        };
        let step = repl.step(&table.borrow(), response).expect("the answer fits the request");
        if let Some(report) = step.report {
            world.borrow_mut().reports.push(report);
        }
        request = step.request;
    }
}

const CONFIG: &str = "
    set_var(\"PS1\", \"$ \");
    alias_add(\"ll\", \"ls -la\");

    fn on_input(line) {
        set_var(\"LAST\", line);
        if line == \"boom\" { throw \"the line went boom\"; }
    }

    fn on_cd(from, to) {
        set_var(\"MOVED\", from + \" -> \" + to);
    }

    fn on_exit(args) {
        set_var(\"BYE\", `${args.len()} arguments`);
    }
";

#[test]
fn a_session_without_configuration_dispatches_lines_directly() {
    let world = Rc::new(RefCell::new(World::new(&["ls -la", "  ", "cd /tmp", "clr"])));
    let code = run(&world, None);
    let world = world.borrow();
    assert_eq!(code, 0);
    assert_eq!(world.spawned, vec!["ls -la"]);
    assert_eq!(world.directory, "/tmp");
    assert_eq!(world.cleared, 1);
    assert_eq!(world.prompts, vec!["Fix config>> "; 5]);
    assert_eq!(
        world.reports[0],
        "Warning: Failed to compile config: no such file. Using default settings."
    );
    assert_eq!(world.reports[1], "Warning: PS1 not set. Using default prompt: Fix config>> ");
    assert_eq!(world.reports[2..], vec!["Warning: PS1 became unset, using default."; 5]);
    assert_eq!(world.loaded_history, vec!["/home/me/.sbsh_history.txt"]);
    assert_eq!(world.saved_history, vec!["/home/me/.sbsh_history.txt"]);
}

#[test]
fn a_session_with_a_configuration_that_does_not_compile_goes_on_without_hooks() {
    let world = Rc::new(RefCell::new(World::new(&["ls"])));
    let code = run(&world, Some("fn on_input(line) { set_var(\"LAST\", line) "));
    let world = world.borrow();
    assert_eq!(code, 0);
    assert_eq!(world.spawned, vec!["ls"]);
    assert!(world.reports[0].starts_with("Warning: Failed to compile config: "));
    assert_eq!(world.variables.get("LAST"), None);
}

#[test]
fn a_session_with_a_configuration_that_fails_to_run_goes_on_without_hooks() {
    let world = Rc::new(RefCell::new(World::new(&["ls"])));
    let source = "
        set_var(\"PS1\", \"$ \");
        fn on_input(line) { set_var(\"LAST\", line); }
        nothing();
    ";
    let code = run(&world, Some(source));
    let world = world.borrow();
    assert_eq!(code, 0);
    assert_eq!(world.spawned, vec!["ls"]);
    assert_eq!(world.prompts, vec!["$ ", "$ "]);
    assert_eq!(world.reports.len(), 1);
    assert!(world.reports[0].starts_with("Warning: Failed to execute config: "));
    assert!(world.reports[0].ends_with(". Continuing with defaults."));
    assert_eq!(world.variables.get("LAST"), None);
}

#[test]
fn a_session_with_hooks_calls_them_and_dispatches() {
    let lines = ["ll /tmp", "cd /work", "cd /nowhere", "missing-program", "cd"];
    let world = Rc::new(RefCell::new(World::new(&lines)));
    let code = run(&world, Some(CONFIG));
    let world = world.borrow();
    assert_eq!(code, 0);
    assert_eq!(world.spawned, vec!["ls -la /tmp", "missing-program"]);
    assert_eq!(world.directory, "/home/me");
    assert_eq!(world.variables.get("LAST").map(String::as_str), Some("cd"));
    assert_eq!(world.variables.get("MOVED").map(String::as_str), Some("/work -> /home/me"));
    assert_eq!(world.variables.get("BYE").map(String::as_str), Some("0 arguments"));
    assert_eq!(
        world.reports,
        vec!["cd: /nowhere: no such directory", "Error executing command: not found"]
    );
    assert_eq!(world.prompts, vec!["$ "; 6]);
    assert_eq!(world.saved_history, vec!["/home/me/.sbsh_history.txt"]);
}

#[test]
fn a_session_reports_a_hook_that_fails_and_goes_on() {
    let world = Rc::new(RefCell::new(World::new(&["boom", "ls"])));
    let code = run(&world, Some(CONFIG));
    let world = world.borrow();
    assert_eq!(code, 0);
    assert_eq!(world.spawned, vec!["boom", "ls"]);
    assert_eq!(world.reports.len(), 1);
    assert!(world.reports[0].starts_with("Error in on_input hook: "), "{}", world.reports[0]);
    assert!(world.reports[0].contains("the line went boom"), "{}", world.reports[0]);
}

#[test]
fn a_session_ends_with_the_code_of_exit_and_saves_no_history() {
    let world = Rc::new(RefCell::new(World::new(&["ls", "exit 7", "never read"])));
    let code = run(&world, Some(CONFIG));
    let world = world.borrow();
    assert_eq!(code, 7);
    assert_eq!(world.spawned, vec!["ls"]);
    assert_eq!(world.variables.get("BYE").map(String::as_str), Some("2 arguments"));
    assert_eq!(world.saved_history, Vec::<String>::new());
    assert_eq!(world.lines.len(), 1);
}

#[test]
fn a_session_ends_with_code_0_on_exit_without_a_number() {
    for line in ["exit", "exit abc", "exit 0", "exit 99999999999"] {
        let world = Rc::new(RefCell::new(World::new(&[line])));
        assert_eq!(run(&world, Some(CONFIG)), 0, "{line}");
        assert_eq!(world.borrow().saved_history, Vec::<String>::new());
    }
}

#[test]
fn a_session_takes_aliases_that_a_hook_adds() {
    let source = "
        set_var(\"PS1\", \"$ \");
        fn on_input(line) { alias_add(\"gs\", \"git status\"); }
    ";
    let world = Rc::new(RefCell::new(World::new(&["gs -s"])));
    let code = run(&world, Some(source));
    assert_eq!(code, 0);
    assert_eq!(world.borrow().spawned, vec!["git status -s"]);
}

#[test]
fn a_session_reads_the_prompt_anew_each_turn() {
    let source = "fn on_input(line) { set_var(\"PS1\", line + \"> \"); }";
    let world = Rc::new(RefCell::new(World::new(&["one", "two"])));
    world.borrow_mut().variables.insert("PS1".to_string(), "$ ".to_string());
    let code = run(&world, Some(source));
    let world = world.borrow();
    assert_eq!(code, 0);
    assert_eq!(world.prompts, vec!["$ ", "one> ", "two> "]);
    assert_eq!(world.reports, Vec::<String>::new());
}
