use crate::game::{GameState, GameView};
use vstd::prelude::*;
use vstd::std_specs::iter::IteratorSpec;

verus! {

/// Milliseconds the driver waits between two ticks.
pub const TICK_MILLIS: u64 = 40;

/// A key press, as far as the game tells keys apart.
#[derive(Clone, Copy, Debug, PartialEq, Eq, Structural)]
pub enum Key {
    /// A printable character.
    Char(char),
    /// A character typed with the control key held down.
    Ctrl(char),
    /// The left arrow.
    Left,
    /// The right arrow.
    Right,
    /// Any other key.
    Other,
}

/// What a key asks the game to do.
#[derive(Clone, Copy, Debug, PartialEq, Eq, Structural)]
pub enum Command {
    MoveLeft,
    MoveRight,
    TogglePause,
    Reset,
    Quit,
}

/// What the driver does after a frame.
#[derive(Clone, Copy, Debug, PartialEq, Eq, Structural)]
pub enum Action {
    /// Leave the loop.
    Quit,
    /// Draw again at once: the key meant nothing and no time has passed
    /// in the game.
    Redraw,
    /// Draw, then wait `TICK_MILLIS` before the next frame.
    Wait,
}

/// The key bindings: `h` and the left arrow move the bar left, `l` and the
/// right arrow move it right, the space bar pauses and resumes, `r` starts
/// over, `q` and control-c quit. No other key is bound.
pub open spec fn spec_command_for(key: Key) -> Option<Command> {
    match key {
        Key::Ctrl(c) => if c == 'c' {
            Some(Command::Quit)
        } else {
            None
        },
        Key::Char(c) => if c == 'l' {
            Some(Command::MoveRight)
        } else if c == 'h' {
            Some(Command::MoveLeft)
        } else if c == ' ' {
            Some(Command::TogglePause)
        } else if c == 'q' {
            Some(Command::Quit)
        } else if c == 'r' {
            Some(Command::Reset)
        } else {
            None
        },
        Key::Right => Some(Command::MoveRight),
        Key::Left => Some(Command::MoveLeft),
        Key::Other => None,
    }
}

/// Looks a key up in the key bindings.
pub fn command_for(key: Key) -> (command: Option<Command>)
    ensures
        command == spec_command_for(key),
{
    match key {
        Key::Ctrl(c) => if c == 'c' {
            Some(Command::Quit)
        } else {
            None
        },
        Key::Char(c) => if c == 'l' {
            Some(Command::MoveRight)
        } else if c == 'h' {
            Some(Command::MoveLeft)
        } else if c == ' ' {
            Some(Command::TogglePause)
        } else if c == 'q' {
            Some(Command::Quit)
        } else if c == 'r' {
            Some(Command::Reset)
        } else {
            None
        },
        Key::Right => Some(Command::MoveRight),
        Key::Left => Some(Command::MoveLeft),
        Key::Other => None,
    }
}

/// The game after a command. Quitting is the driver's business and leaves
/// the game as it is.
pub open spec fn applied(game: GameView, command: Command) -> GameView {
    match command {
        Command::MoveLeft => game.bar_moved_left(),
        Command::MoveRight => game.bar_moved_right(),
        Command::TogglePause => game.pause_toggled(),
        Command::Reset => game.restarted(),
        Command::Quit => game,
    }
}

/// Carries out a command on the game.
pub fn apply(game: &mut GameState, command: Command)
    ensures
        final(game)@ == applied(old(game)@, command),
        final(game)@.inv(),
{
    proof {
        use_type_invariant(&*game);
    }
    match command {
        Command::MoveLeft => game.move_bar_left(),
        Command::MoveRight => game.move_bar_right(),
        Command::TogglePause => game.toggle_pause(),
        Command::Reset => game.reset(),
        Command::Quit => {},
    }
}

/// One frame of play, as a function of the game and the latest key: a
/// bound key is carried out and the game ticks; without a key the game
/// just ticks; a quit key and an unbound key leave the game untouched.
pub open spec fn spec_frame(game: GameView, key: Option<Key>) -> (GameView, Action) {
    match key {
        None => (game.ticked(), Action::Wait),
        Some(key) => match spec_command_for(key) {
            None => (game, Action::Redraw),
            Some(Command::Quit) => (game, Action::Quit),
            Some(command) => (applied(game, command).ticked(), Action::Wait),
        },
    }
}

/// Plays one frame: applies the latest key, if there is one, ticks the
/// game, and tells the driver what to do next.
pub fn frame(game: &mut GameState, key: Option<Key>) -> (action: Action)
    ensures
        (final(game)@, action) == spec_frame(old(game)@, key),
        final(game)@.inv(),
{
    proof {
        use_type_invariant(&*game);
    }
    match key {
        None => {
            game.tick();
            Action::Wait
        },
        Some(key) => match command_for(key) {
            None => Action::Redraw,
            Some(Command::Quit) => Action::Quit,
            Some(command) => {
                apply(game, command);
                game.tick();
                Action::Wait
            },
        },
    }
}

/// Drains an iterator and keeps only what it yielded last: of several
/// events that arrived since the last frame, the most recent one counts
/// and the stale ones are dropped.
///
/// The iterator has to be one that runs dry and then stays dry, such as
/// the iterator of a vector; otherwise draining it need not come to an
/// end.
pub fn last_currently_available<T: Iterator>(iterator: &mut T) -> (last: Option<T::Item>)
    requires
        <T as IteratorSpec>::obeys_prophetic_iter_laws(old(iterator)),
        <T as IteratorSpec>::decrease(old(iterator)) is Some,
    ensures
        last == if <T as IteratorSpec>::remaining(old(iterator)).len() == 0 {
            None
        } else {
            Some(<T as IteratorSpec>::remaining(old(iterator)).last())
        },
        <T as IteratorSpec>::remaining(final(iterator)).len() == 0,
{
    let ghost all = <T as IteratorSpec>::remaining(iterator);
    let mut last: Option<T::Item> = None;
    loop
        invariant
            <T as IteratorSpec>::obeys_prophetic_iter_laws(iterator),
            <T as IteratorSpec>::decrease(iterator) is Some,
            <T as IteratorSpec>::remaining(iterator).len() <= all.len(),
            <T as IteratorSpec>::remaining(iterator) == all.subrange(all.len() - <T as IteratorSpec>::remaining(iterator).len(), all.len() as int),
            last == if <T as IteratorSpec>::remaining(iterator).len() == all.len() {
                None
            } else {
                Some(all[all.len() - <T as IteratorSpec>::remaining(iterator).len() - 1])
            },
        ensures
            <T as IteratorSpec>::remaining(iterator).len() == 0,
            last == if all.len() == 0 {
                None
            } else {
                Some(all.last())
            },
        decreases <T as IteratorSpec>::decrease(iterator)->0,
    {
        let ghost rest = <T as IteratorSpec>::remaining(iterator);
        match iterator.next() {
            Some(value) => {
                proof {
                    assert(rest[0] == all[all.len() - rest.len()]);
                    assert(<T as IteratorSpec>::remaining(iterator) == all.subrange(
                        all.len() - <T as IteratorSpec>::remaining(iterator).len(),
                        all.len() as int,
                    ));
                }
                last = Some(value);
            },
            None => {
                break ;
            },
        }
    }
    last
}

} // verus!
