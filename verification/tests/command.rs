use shawty::command::{clear_console, CommandStep};
use shawty::error::ShawtyError;
use shawty::protocol::Next;

fn not_found() -> std::io::Error {
    std::io::Error::new(std::io::ErrorKind::NotFound, "program not found")
}

#[test]
fn clearing_the_console_runs_cmd_and_waits() {
    let waiting = match clear_console() {
        CommandStep::Spawn {
            command,
            command_args,
        } => {
            assert_eq!(command, "cmd");
            assert_eq!(command_args, vec!["/c".to_string(), "cls".to_string()]);
            CommandStep::Spawn {
                command,
                command_args,
            }
            .resume(Ok(()))
        }
        _ => panic!("the command must be started first"),
    };
    let done = match waiting {
        Next::Perform(CommandStep::Wait {
            command,
            command_args,
        }) => {
            assert_eq!(command, "cmd");
            assert_eq!(command_args, vec!["/c".to_string(), "cls".to_string()]);
            CommandStep::Wait {
                command,
                command_args,
            }
            .resume(Ok(()))
        }
        _ => panic!("the command must be waited for"),
    };
    assert!(matches!(done, Next::Finished(Ok(()))));
}

#[test]
fn a_command_that_cannot_start_fails_as_spawning() {
    match clear_console().resume(Err(not_found())) {
        Next::Finished(Err(ShawtyError::ExecuteCommandError {
            command,
            command_args,
            spawning_or_executing,
            error,
        })) => {
            assert_eq!(command, "cmd");
            assert_eq!(command_args, vec!["/c".to_string(), "cls".to_string()]);
            assert_eq!(spawning_or_executing, "spawning");
            assert_eq!(error.kind(), std::io::ErrorKind::NotFound);
        }
        _ => panic!("not a command failure"),
    }
}

#[test]
fn a_command_that_fails_while_running_fails_as_executing() {
    let waiting = match clear_console().resume(Ok(())) {
        Next::Perform(step) => step,
        Next::Finished(_) => panic!("the command must be waited for"),
    };
    match waiting.resume(Err(not_found())) {
        Next::Finished(Err(error)) => {
            assert_eq!(
                error.render(),
                "Error while executing command: 'cmd':\nArgs '[\"/c\", \"cls\"]'.\nCaused by: program not found"
            );
            match error {
                ShawtyError::ExecuteCommandError {
                    spawning_or_executing,
                    ..
                } => assert_eq!(spawning_or_executing, "executing"),
                other => panic!("not a command failure: {other:?}"),
            }
        }
        _ => panic!("not a command failure"),
    }
}
