//! Running a command and waiting for it: the primitive that clears the
//! console.

use crate::error::{ShawtyError, ShawtyErrorView};
use crate::protocol::{Next, NextView};
use vstd::prelude::*;

verus! {

/// A step of running a command.
#[derive(Debug)]
pub enum CommandStep {
    /// Start the command with its arguments.
    Spawn { command: String, command_args: Vec<String> },
    /// Wait for the started command to end.
    Wait { command: String, command_args: Vec<String> },
}

/// The mathematical value of a [`CommandStep`].
pub enum CommandStepView {
    Spawn { command: Seq<char>, command_args: Seq<Seq<char>> },
    Wait { command: Seq<char>, command_args: Seq<Seq<char>> },
}

impl View for CommandStep {
    type V = CommandStepView;

    open spec fn view(&self) -> CommandStepView {
        match *self {
            CommandStep::Spawn { command, command_args } => CommandStepView::Spawn {
                command: command@,
                command_args: command_args.deep_view(),
            },
            CommandStep::Wait { command, command_args } => CommandStepView::Wait {
                command: command@,
                command_args: command_args.deep_view(),
            },
        }
    }
}

impl CommandStepView {
    /// How many steps the primitive may still take, this one included.
    pub open spec fn steps_left(self) -> nat {
        match self {
            CommandStepView::Spawn { .. } => 2,
            CommandStepView::Wait { .. } => 1,
        }
    }

    /// What follows the step, given how it went. A command that could not
    /// be started fails as `"spawning"`, one that could not be waited for
    /// as `"executing"`.
    pub open spec fn resumed(self, outcome: Result<(), std::io::Error>) -> NextView<
        CommandStepView,
        (),
    > {
        match (self, outcome) {
            (CommandStepView::Spawn { command, command_args }, Ok(_)) => NextView::Perform(
                CommandStepView::Wait { command, command_args },
            ),
            (CommandStepView::Spawn { command, command_args }, Err(fault)) => NextView::Finished(
                Err(
                    ShawtyErrorView::ExecuteCommandError {
                        command,
                        command_args,
                        spawning_or_executing: "spawning"@,
                        error: fault,
                    },
                ),
            ),
            (CommandStepView::Wait { .. }, Ok(_)) => NextView::Finished(Ok(())),
            (CommandStepView::Wait { command, command_args }, Err(fault)) => NextView::Finished(
                Err(
                    ShawtyErrorView::ExecuteCommandError {
                        command,
                        command_args,
                        spawning_or_executing: "executing"@,
                        error: fault,
                    },
                ),
            ),
        }
    }
}

/// Clear the console: names the first step, which starts `cmd /c cls`.
/// The command exists on Windows only.
pub fn clear_console() -> (step: CommandStep)
    ensures
        step@ == (CommandStepView::Spawn {
            command: "cmd"@,
            command_args: seq!["/c"@, "cls"@],
        }),
{
    let mut command_args: Vec<String> = Vec::new();
    command_args.push(String::from_str("/c"));
    command_args.push(String::from_str("cls"));
    proof {
        assert(command_args.deep_view() =~= seq!["/c"@, "cls"@]);
    }
    CommandStep::Spawn { command: String::from_str("cmd"), command_args }
}

impl CommandStep {
    /// Takes how the step went and says what follows. The first fault ends
    /// the primitive, with the command, its arguments and the step that
    /// failed.
    pub fn resume(self, outcome: Result<(), std::io::Error>) -> (next: Next<CommandStep, ()>)
        ensures
            next@ == self@.resumed(outcome),
    {
        match self {
            CommandStep::Spawn { command, command_args } => match outcome {
                Ok(_) => Next::Perform(CommandStep::Wait { command, command_args }),
                Err(fault) => Next::Finished(
                    Err(
                        ShawtyError::ExecuteCommandError {
                            command,
                            command_args,
                            spawning_or_executing: String::from_str("spawning"),
                            error: fault,
                        },
                    ),
                ),
            },
            CommandStep::Wait { command, command_args } => match outcome {
                Ok(_) => Next::Finished(Ok(())),
                Err(fault) => Next::Finished(
                    Err(
                        ShawtyError::ExecuteCommandError {
                            command,
                            command_args,
                            spawning_or_executing: String::from_str("executing"),
                            error: fault,
                        },
                    ),
                ),
            },
        }
    }
}

/// No step of running a command is tried again: the command is started
/// once and waited for once, and the first fault ends the primitive with
/// the step that failed.
pub proof fn lemma_command_never_retries(step: CommandStepView, outcome: Result<(), std::io::Error>)
    ensures
        step.resumed(outcome) matches NextView::Perform(next) ==> next.steps_left()
            < step.steps_left(),
        step.steps_left() == 1 ==> step.resumed(outcome) is Finished,
        outcome is Err ==> (step.resumed(outcome) matches NextView::Finished(
            Err(ShawtyErrorView::ExecuteCommandError { spawning_or_executing, .. }),
        ) && spawning_or_executing == (if step is Spawn {
            "spawning"@
        } else {
            "executing"@
        })),
{
}

} // verus!
