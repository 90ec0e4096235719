//! Decoding raw keyboard scan codes into game commands, and applying
//! them to the game. Reading the scan code from the keyboard port and
//! acknowledging the interrupt are left to the caller.
use vstd::prelude::*;

use crate::game::Direction;
use crate::game::Game;
use crate::game::spec_input;
use crate::game::spec_pause;
use crate::game::spec_quit;
use crate::game::spec_start;
use crate::game::GameModel;

verus! {

/// A command a key press can carry: the three buttons, or steering one
/// player (`true` selects red).
#[derive(Clone, Copy, Debug, PartialEq, Eq, Structural)]
pub enum Command {
    Start,
    Pause,
    Quit,
    Steer(bool, Direction),
}

/// The fixed scan-code table: Space starts, P pauses, Q quits; W/S/A/D
/// steer blue, the arrow keys steer red. Everything else is ignored.
pub open spec fn spec_decode(code: u8) -> Option<Command> {
    if code == 57 {
        Some(Command::Start)
    } else if code == 25 {
        Some(Command::Pause)
    } else if code == 16 {
        Some(Command::Quit)
    } else if code == 17 {
        Some(Command::Steer(false, Direction::Up))
    } else if code == 31 {
        Some(Command::Steer(false, Direction::Down))
    } else if code == 30 {
        Some(Command::Steer(false, Direction::Left))
    } else if code == 32 {
        Some(Command::Steer(false, Direction::Right))
    } else if code == 72 {
        Some(Command::Steer(true, Direction::Up))
    } else if code == 80 {
        Some(Command::Steer(true, Direction::Down))
    } else if code == 75 {
        Some(Command::Steer(true, Direction::Left))
    } else if code == 77 {
        Some(Command::Steer(true, Direction::Right))
    } else {
        None
    }
}

/// The game after the command that scan code `code` carries; an
/// unrecognized code leaves the game as it was.
pub open spec fn spec_handle_key(g: GameModel, code: u8) -> GameModel {
    match spec_decode(code) {
        Some(Command::Start) => spec_start(g),
        Some(Command::Pause) => spec_pause(g),
        Some(Command::Quit) => spec_quit(g),
        Some(Command::Steer(red, d)) => spec_input(g, red, d),
        None => g,
    }
}

/// Map a raw scan code to its command.
pub fn decode(code: u8) -> (r: Option<Command>)
    ensures
        r == spec_decode(code),
{
    match code {
        57 => Some(Command::Start),  // Space
        25 => Some(Command::Pause),  // P
        16 => Some(Command::Quit),  // Q
        17 => Some(Command::Steer(false, Direction::Up)),  // W
        31 => Some(Command::Steer(false, Direction::Down)),  // S
        30 => Some(Command::Steer(false, Direction::Left)),  // A
        32 => Some(Command::Steer(false, Direction::Right)),  // D
        72 => Some(Command::Steer(true, Direction::Up)),  // Up
        80 => Some(Command::Steer(true, Direction::Down)),  // Down
        75 => Some(Command::Steer(true, Direction::Left)),  // Left
        77 => Some(Command::Steer(true, Direction::Right)),  // Right
        _ => None,
    }
}

/// Apply the key event carried by scan code `code` to the game.
pub fn handle_key(game: &mut Game, code: u8)
    requires
        old(game).wf(),
    ensures
        final(game)@ == spec_handle_key(old(game)@, code),
        final(game).wf(),
{
    match decode(code) {
        Some(Command::Start) => game.start(),
        Some(Command::Pause) => game.pause(),
        Some(Command::Quit) => game.quit(),
        Some(Command::Steer(red, d)) => game.input(red, d),
        None => {},
    }
}

} // verus!
