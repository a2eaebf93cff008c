//! What the keyboard asks of a running simulation, and how the run goes on.

use vstd::prelude::*;

verus! {

/// What the player asks for.
#[derive(Clone, Copy, PartialEq, Eq, Debug, Structural)]
pub enum Command {
    /// Halt the generations, or let them run again.
    Paused,
    /// End the run.
    Quit,
}

/// The command that a typed character stands for: a space pauses or resumes,
/// `q` quits, and every other character asks for nothing.
pub fn command_for_key(key: char) -> (command: Option<Command>)
    ensures
        key == ' ' ==> command == Some(Command::Paused),
        key == 'q' ==> command == Some(Command::Quit),
        key != ' ' && key != 'q' ==> command is None,
{
    if key == ' ' {
        Some(Command::Paused)
    } else if key == 'q' {
        Some(Command::Quit)
    } else {
        None
    }
}

/// Whether the run is paused after `command` came in while it was `paused`,
/// or `None` where the run ends: pausing flips the state, quitting ends the
/// run, and without a command the state stays.
pub fn after_command(paused: bool, command: Option<Command>) -> (next: Option<bool>)
    ensures
        command == Some(Command::Paused) ==> next == Some(!paused),
        command == Some(Command::Quit) ==> next is None,
        command is None ==> next == Some(paused),
{
    match command {
        Some(Command::Paused) => Some(!paused),
        Some(Command::Quit) => None,
        None => Some(paused),
    }
}

} // verus!
