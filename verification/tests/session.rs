use script_worker::error::ScriptError;
use script_worker::host::println_line;
use script_worker::script::{evaluate_script, shutdown, start, ScriptThread};
use script_worker::worker::{evaluation_report, WorkerAction, WorkerState};

/// Splits the text between the brackets of a call into its arguments: string
/// literals in double quotes, and bare words, separated by commas.
fn arguments(inner: &str) -> Vec<String> {
    let mut found = Vec::new();
    let mut current = String::new();
    let mut quoted = false;
    let mut any = false;
    for c in inner.chars() {
        if c == '"' {
            quoted = !quoted;
            any = true;
        } else if quoted {
            current.push(c);
        } else if c == ',' {
            found.push(current);
            current = String::new();
            any = false;
        } else if c != ' ' {
            current.push(c);
            any = true;
        }
    }
    if any {
        found.push(current);
    }
    found
}

/// Stands in for the engine: knows `println` calls, numbers and sums, one
/// statement to a line, and fails on anything else. Returns the lines written
/// and whether the script ran through.
fn run_script(source: &str) -> (Vec<String>, Result<(), ()>) {
    let mut lines = Vec::new();
    for statement in source.lines() {
        let statement = statement.trim();
        if statement.is_empty() {
            continue;
        }
        if let Some(rest) = statement.strip_prefix("println(") {
            match rest.strip_suffix(")") {
                Some(inner) => lines.push(println_line(&arguments(inner))),
                None => return (lines, Err(())),
            }
        } else if !statement.chars().all(|c| c.is_ascii_digit() || c == '+' || c == ' ') {
            return (lines, Err(()));
        }
    }
    (lines, Ok(()))
}

/// Plays the worker's thread until it would block or exits: returns the lines
/// written, the failures reported and the last action.
fn work(thread: &mut ScriptThread) -> (Vec<String>, Vec<ScriptError>, WorkerAction) {
    let mut lines = Vec::new();
    let mut failures = Vec::new();
    loop {
        match thread.next_action() {
            WorkerAction::Evaluate(source) => {
                let (written, outcome) = run_script(&source);
                lines.extend(written);
                if let Err(failure) = evaluation_report(outcome) {
                    failures.push(failure);
                }
            }
            last => return (lines, failures, last),
        }
    }
}

#[test]
fn started_session_runs_with_nothing_queued() {
    let mut thread = start();
    assert_eq!(thread.state(), WorkerState::Running);
    assert_eq!(thread.pending(), 0);
    assert_eq!(thread.next_action(), WorkerAction::Wait);
    assert_eq!(thread.state(), WorkerState::Running);
}

#[test]
fn hello_world_then_shutdown_writes_one_line() {
    let mut thread = start();
    assert_eq!(evaluate_script(&mut thread, r#"println("Hello, world!")"#), Ok(()));
    assert_eq!(shutdown(&mut thread), Ok(()));
    assert_eq!(thread.pending(), 2);
    let (lines, failures, last) = work(&mut thread);
    assert_eq!(lines, vec![String::from("Hello, world!")]);
    assert!(failures.is_empty());
    assert_eq!(last, WorkerAction::Exit);
    assert_eq!(thread.state(), WorkerState::Terminated);
}

#[test]
fn script_without_println_writes_nothing() {
    let mut thread = start();
    assert_eq!(evaluate_script(&mut thread, "1+1"), Ok(()));
    assert_eq!(thread.next_action(), WorkerAction::Evaluate(String::from("1+1")));
    assert_eq!(thread.next_action(), WorkerAction::Wait);
    assert_eq!(evaluate_script(&mut thread, "1+1"), Ok(()));
    let (lines, failures, last) = work(&mut thread);
    assert!(lines.is_empty());
    assert!(failures.is_empty());
    assert_eq!(last, WorkerAction::Wait);
    assert_eq!(thread.state(), WorkerState::Running);
}

#[test]
fn evaluate_after_shutdown_completed_fails_with_channel_closed() {
    let mut thread = start();
    assert_eq!(shutdown(&mut thread), Ok(()));
    assert_eq!(thread.next_action(), WorkerAction::Exit);
    assert_eq!(thread.state(), WorkerState::Terminated);
    assert_eq!(evaluate_script(&mut thread, "1+1"), Err(ScriptError::ChannelClosed));
    assert_eq!(thread.pending(), 0);
    assert_eq!(thread.next_action(), WorkerAction::Exit);
}

#[test]
fn empty_script_is_evaluated_and_writes_nothing() {
    let mut thread = start();
    assert_eq!(evaluate_script(&mut thread, ""), Ok(()));
    assert_eq!(thread.pending(), 1);
    assert_eq!(thread.next_action(), WorkerAction::Evaluate(String::new()));
    assert_eq!(evaluate_script(&mut thread, ""), Ok(()));
    let (lines, failures, last) = work(&mut thread);
    assert!(lines.is_empty());
    assert!(failures.is_empty());
    assert_eq!(last, WorkerAction::Wait);
}

#[test]
fn scripts_are_handed_out_in_submission_order() {
    let mut thread = start();
    let sources: Vec<String> = (0..50).map(|n| format!("println(\"{}\")", n)).collect();
    for source in &sources {
        assert_eq!(evaluate_script(&mut thread, source), Ok(()));
    }
    assert_eq!(thread.pending(), 50);
    for source in &sources {
        assert_eq!(thread.next_action(), WorkerAction::Evaluate(source.clone()));
    }
    assert_eq!(thread.next_action(), WorkerAction::Wait);
}

#[test]
fn printed_lines_follow_submission_order_when_the_worker_runs_in_between() {
    let mut thread = start();
    let mut lines = Vec::new();
    assert_eq!(evaluate_script(&mut thread, r#"println("one")"#), Ok(()));
    assert_eq!(evaluate_script(&mut thread, r#"println("two", "three")"#), Ok(()));
    match thread.next_action() {
        WorkerAction::Evaluate(source) => lines.extend(run_script(&source).0),
        other => panic!("unexpected action {:?}", other),
    }
    assert_eq!(evaluate_script(&mut thread, "println(\"four\")\nprintln(\"five\")"), Ok(()));
    assert_eq!(shutdown(&mut thread), Ok(()));
    let (more, failures, last) = work(&mut thread);
    lines.extend(more);
    assert_eq!(lines, vec!["one", "two three", "four", "five"]);
    assert!(failures.is_empty());
    assert_eq!(last, WorkerAction::Exit);
}

#[test]
fn scripts_behind_a_shutdown_are_never_run() {
    let mut thread = start();
    assert_eq!(evaluate_script(&mut thread, r#"println("before")"#), Ok(()));
    assert_eq!(shutdown(&mut thread), Ok(()));
    assert_eq!(evaluate_script(&mut thread, r#"println("after")"#), Ok(()));
    assert_eq!(thread.pending(), 3);
    let (lines, _, last) = work(&mut thread);
    assert_eq!(lines, vec!["before"]);
    assert_eq!(last, WorkerAction::Exit);
    assert_eq!(thread.pending(), 0);
    assert_eq!(thread.state(), WorkerState::Terminated);
}

#[test]
fn terminated_worker_stays_terminated() {
    let mut thread = start();
    assert_eq!(shutdown(&mut thread), Ok(()));
    assert_eq!(thread.next_action(), WorkerAction::Exit);
    for _ in 0..5 {
        assert_eq!(evaluate_script(&mut thread, "println(1)"), Err(ScriptError::ChannelClosed));
        assert_eq!(shutdown(&mut thread), Err(ScriptError::ChannelClosed));
        assert_eq!(thread.next_action(), WorkerAction::Exit);
        assert_eq!(thread.state(), WorkerState::Terminated);
        assert_eq!(thread.pending(), 0);
    }
}

#[test]
fn second_shutdown_before_the_first_is_taken_is_queued_and_dropped() {
    let mut thread = start();
    assert_eq!(shutdown(&mut thread), Ok(()));
    assert_eq!(shutdown(&mut thread), Ok(()));
    assert_eq!(thread.pending(), 2);
    assert_eq!(thread.next_action(), WorkerAction::Exit);
    assert_eq!(thread.pending(), 0);
    assert_eq!(shutdown(&mut thread), Err(ScriptError::ChannelClosed));
}

#[test]
fn failed_script_is_reported_and_the_worker_goes_on() {
    let mut thread = start();
    assert_eq!(evaluate_script(&mut thread, "this is no script"), Ok(()));
    assert_eq!(evaluate_script(&mut thread, r#"println("still here")"#), Ok(()));
    let (lines, failures, last) = work(&mut thread);
    assert_eq!(failures, vec![ScriptError::EvaluationFailed]);
    assert_eq!(lines, vec!["still here"]);
    assert_eq!(last, WorkerAction::Wait);
    assert_eq!(thread.state(), WorkerState::Running);
}

#[test]
fn aborted_session_drops_the_queue_and_refuses_sends() {
    let mut thread = start();
    assert_eq!(evaluate_script(&mut thread, "1"), Ok(()));
    assert_eq!(evaluate_script(&mut thread, "2"), Ok(()));
    thread.abort();
    assert_eq!(thread.state(), WorkerState::Terminated);
    assert_eq!(thread.pending(), 0);
    assert_eq!(thread.next_action(), WorkerAction::Exit);
    assert_eq!(evaluate_script(&mut thread, "3"), Err(ScriptError::ChannelClosed));
    assert_eq!(shutdown(&mut thread), Err(ScriptError::ChannelClosed));
}
