use code_sandbox::execution::{Action, Event, Execution, ExecutionResponse, Language, Phase, Stage};
use code_sandbox::sandbox::Sandbox;

fn expect_write(a: Action) -> (String, String) {
    match a {
        Action::WriteSource(path, code) => (path, code),
        other => panic!("expected WriteSource, got {:?}", other),
    }
}

fn expect_command(a: Action) -> String {
    match a {
        Action::RunCommand(c) => c,
        other => panic!("expected RunCommand, got {:?}", other),
    }
}

fn expect_response(a: Action) -> ExecutionResponse {
    match a {
        Action::Respond(r) => r,
        other => panic!("expected Respond, got {:?}", other),
    }
}

#[test]
fn python_hello_scenario() {
    let code = "print('Hello from Python!')\n".to_string();
    let mut run = Execution::with_id(Language::Python, code.clone(), "abc".to_string());
    let (path, written) = expect_write(run.step(Event::Created(true)));
    assert_eq!(path, "/tmp/abc.py");
    assert_eq!(written, code);
    assert!(matches!(run.step(Event::Written(Ok(()))), Action::Probe));
    assert_eq!(expect_command(run.step(Event::Probed(0, true))), "python3 /tmp/abc.py");
    let outcome = Sandbox::command_outcome(true, b"Hello from Python!\n", b"");
    assert_eq!(outcome, Ok("Hello from Python!".to_string()));
    assert!(matches!(run.step(Event::Ran(outcome)), Action::Terminate));
    let response = expect_response(run.step(Event::Terminated));
    assert_eq!(response.output, "Hello from Python!");
    assert!(run.is_done());
}

#[test]
fn cpp_nonzero_exit_scenario() {
    let code = "int main(){return 1;}".to_string();
    let mut run = Execution::with_id(Language::Cpp, code, "f00d".to_string());
    let (path, _) = expect_write(run.step(Event::Created(true)));
    assert_eq!(path, "/tmp/f00d.cpp");
    assert!(matches!(run.step(Event::Written(Ok(()))), Action::Probe));
    assert_eq!(run.phase(), Phase::Waiting(Stage::Compile));
    assert_eq!(expect_command(run.step(Event::Probed(0, true))), "g++ -o /tmp/f00d /tmp/f00d.cpp");
    let compiled = Sandbox::command_outcome(true, b"", b"");
    assert!(matches!(run.step(Event::Ran(compiled)), Action::Probe));
    assert_eq!(run.phase(), Phase::Waiting(Stage::Execute));
    assert_eq!(expect_command(run.step(Event::Probed(1, true))), "/tmp/f00d");
    let ran = Sandbox::command_outcome(false, b"", b"");
    assert_eq!(ran, Err(String::new()));
    assert!(matches!(run.step(Event::Ran(ran)), Action::Terminate));
    let response = expect_response(run.step(Event::Terminated));
    assert_eq!(response.output, "");
}

#[test]
fn cpp_syntax_error_scenario() {
    let mut run = Execution::with_id(Language::Cpp, "int main( {".to_string(), "e1".to_string());
    run.step(Event::Created(true));
    run.step(Event::Written(Ok(())));
    assert_eq!(expect_command(run.step(Event::Probed(0, true))), "g++ -o /tmp/e1 /tmp/e1.cpp");
    let diagnostic = b"e1.cpp:1:11: error: expected ')' before '{' token\n";
    let compiled = Sandbox::command_outcome(false, b"", diagnostic);
    assert!(matches!(run.step(Event::Ran(compiled)), Action::Terminate));
    // no command is asked for once termination is under way
    assert!(matches!(run.step(Event::Probed(0, true)), Action::Terminate));
    let response = expect_response(run.step(Event::Terminated));
    assert_eq!(
        response.output,
        "Compilation failed:\ne1.cpp:1:11: error: expected ')' before '{' token"
    );
    assert!(!response.output.contains("not found"));
}

#[test]
fn timeout_terminates_once_then_responds() {
    let mut run = Execution::with_id(Language::Python, "x = 1".to_string(), "t".to_string());
    run.step(Event::Created(true));
    assert!(matches!(run.step(Event::Written(Ok(()))), Action::Probe));
    assert!(matches!(run.step(Event::Probed(0, false)), Action::Sleep));
    assert!(matches!(run.step(Event::Slept), Action::Probe));
    assert!(matches!(run.step(Event::Probed(14, false)), Action::Sleep));
    assert!(matches!(run.step(Event::Slept), Action::Probe));
    assert!(matches!(run.step(Event::Probed(15, false)), Action::Terminate));
    let response = expect_response(run.step(Event::Terminated));
    assert_eq!(response.output, "Execution timed out");
    let again = expect_response(run.step(Event::Terminated));
    assert_eq!(again.output, "Execution timed out");
}

#[test]
fn timeout_wins_over_a_late_ready_anchor() {
    let mut run = Execution::with_id(Language::Python, "x = 1".to_string(), "t".to_string());
    run.step(Event::Created(true));
    run.step(Event::Written(Ok(())));
    assert!(matches!(run.step(Event::Probed(20, true)), Action::Terminate));
}

#[test]
fn failed_creation_responds_without_termination() {
    let mut run = Execution::with_id(Language::Cpp, "int main(){}".to_string(), "c".to_string());
    let response = expect_response(run.step(Event::Created(false)));
    assert_eq!(response.output, "Failed to create sandbox");
    assert!(run.is_done());
}

#[test]
fn failed_write_terminates_then_reports() {
    let mut run = Execution::with_id(Language::Python, "pass".to_string(), "w".to_string());
    run.step(Event::Created(true));
    let a = run.step(Event::Written(Err("Permission denied (os error 13)".to_string())));
    assert!(matches!(a, Action::Terminate));
    let response = expect_response(run.step(Event::Terminated));
    assert_eq!(response.output, "Failed to write code to file: Permission denied (os error 13)");
}

#[test]
fn program_failure_reports_stderr_not_stdout() {
    let mut run = Execution::with_id(Language::Python, "raise".to_string(), "p".to_string());
    run.step(Event::Created(true));
    run.step(Event::Written(Ok(())));
    run.step(Event::Probed(2, true));
    let ran = Sandbox::command_outcome(false, b"partial output\n", b"  Traceback: boom \n");
    assert!(matches!(run.step(Event::Ran(ran)), Action::Terminate));
    assert_eq!(expect_response(run.step(Event::Terminated)).output, "Traceback: boom");
}

#[test]
fn unexpected_event_repeats_the_pending_action() {
    let mut run = Execution::with_id(Language::Python, "pass".to_string(), "u".to_string());
    assert!(matches!(run.step(Event::Slept), Action::CreateSandbox));
    assert_eq!(run.phase(), Phase::Creating);
    run.step(Event::Created(true));
    let (path, _) = expect_write(run.step(Event::Terminated));
    assert_eq!(path, "/tmp/u.py");
}

#[test]
fn fresh_ids_are_hyphenated_and_distinct() {
    let a = Execution::new(Language::Python, "pass".to_string());
    let b = Execution::new(Language::Python, "pass".to_string());
    let id = a.id();
    assert_eq!(id.len(), 36);
    for (i, c) in id.chars().enumerate() {
        if i == 8 || i == 13 || i == 18 || i == 23 {
            assert_eq!(c, '-');
        } else {
            assert!(c.is_ascii_hexdigit() && !c.is_ascii_uppercase());
        }
    }
    assert_ne!(a.id(), b.id());
    assert_eq!(a.language(), Language::Python);
}
