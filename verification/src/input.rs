use vstd::prelude::*;

use crate::direction::Direction;

verus! {

/// The keyboard keys the game reads. Directional keys come in two aliases
/// (WASD and the arrow keys); `Y` and `N` answer the restart prompt; every
/// other key is `Other` and is ignored.
#[derive(Clone, Copy, PartialEq, Eq, Structural, Debug)]
pub enum Key {
    D,
    A,
    W,
    S,
    Right,
    Left,
    Up,
    Down,
    Y,
    N,
    Other,
}

/// The heading a key asks for, if it is a directional key.
pub open spec fn direction_request(k: Key) -> Option<Direction> {
    match k {
        Key::D => Some(Direction::Right),
        Key::Right => Some(Direction::Right),
        Key::A => Some(Direction::Left),
        Key::Left => Some(Direction::Left),
        Key::W => Some(Direction::Up),
        Key::Up => Some(Direction::Up),
        Key::S => Some(Direction::Down),
        Key::Down => Some(Direction::Down),
        _ => None,
    }
}

} // verus!
