use backup_tool::commands::{first_command_step, next_command_step, CommandOutcome, CommandStep};
use backup_tool::pipeline::PipelineError;

/// Runs the command runner's decisions against `outcome(name)`; returns the
/// commands launched and the final step.
fn drive(commands: &Vec<String>, outcome: impl Fn(&str) -> CommandOutcome) -> (Vec<String>, CommandStep) {
    let mut launched = Vec::new();
    let mut step = first_command_step(commands);
    loop {
        match step {
            CommandStep::Launch(i) => {
                launched.push(commands[i].clone());
                step = next_command_step(commands, i, outcome(&commands[i]));
            }
            other => return (launched, other),
        }
    }
}

fn names(v: &[&str]) -> Vec<String> {
    v.iter().map(|s| s.to_string()).collect()
}

#[test]
fn runner_stops_at_failing_command() {
    let commands = names(&["A", "B", "C"]);
    let (launched, end) = drive(&commands, |c| {
        if c == "B" {
            CommandOutcome::Exited("exit status: 1".to_string())
        } else {
            CommandOutcome::Succeeded
        }
    });
    assert_eq!(launched, names(&["A", "B"]));
    match end {
        CommandStep::Failed { index, error: PipelineError::CommandFailed { command, cause } } => {
            assert_eq!(index, 1);
            assert_eq!(command, "B");
            assert_eq!(cause, "exit status: 1");
        }
        _ => panic!("expected a failure"),
    }
}

#[test]
fn runner_stops_when_launch_fails() {
    let commands = names(&["A", "B"]);
    let (launched, end) = drive(&commands, |_| CommandOutcome::LaunchFailed("not found".to_string()));
    assert_eq!(launched, names(&["A"]));
    match end {
        CommandStep::Failed { index: 0, error } => {
            assert_eq!(error.message(), "Command 'A' failed: not found");
        }
        _ => panic!("expected a failure"),
    }
}

#[test]
fn runner_runs_all_in_order() {
    let commands = names(&["A", "B", "C"]);
    let (launched, end) = drive(&commands, |_| CommandOutcome::Succeeded);
    assert_eq!(launched, commands);
    assert!(matches!(end, CommandStep::Finished));
}

#[test]
fn empty_command_list_is_a_success() {
    let commands: Vec<String> = Vec::new();
    let (launched, end) = drive(&commands, |_| CommandOutcome::Succeeded);
    assert!(launched.is_empty());
    assert!(matches!(end, CommandStep::Finished));
}
