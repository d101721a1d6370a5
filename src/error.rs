//! Conditions under which a command is refused.
use vstd::prelude::*;

verus! {

/// Why a command was refused; a refused command changes nothing.
#[derive(Clone, Copy, Debug, PartialEq, Eq, Structural)]
pub enum CommandError {
    /// The command names a position outside the grid.
    OutOfBounds,
    /// An edit targets the current start or goal cell.
    InvalidTarget,
    /// The command does not apply in the current placement mode.
    WrongMode,
    /// A step was requested while no path is held.
    EmptyPath,
    /// A cost adjustment targets a cell whose cost is unset.
    UnsetCost,
}

} // verus!
