use crate::direction::Direction;
use vstd::prelude::*;

verus! {

/// What the player asked for during a tick.
#[derive(Debug, Copy, Clone, PartialEq, Eq, Structural)]
pub enum Command {
    Quit,
    Turn(Direction),
}

} // verus!
