//! Grid coordinates.
use vstd::prelude::*;

verus! {

/// A cell coordinate `(x, y)`; equality and order are structural.
#[derive(Clone, Copy, Debug, PartialEq, Eq, Structural, Hash, PartialOrd, Ord)]
pub struct Position(pub i32, pub i32);

/// Absolute value of an integer.
pub open spec fn abs(v: int) -> int {
    if v < 0 {
        -v
    } else {
        v
    }
}

/// Manhattan distance between two positions.
pub open spec fn manhattan(a: Position, b: Position) -> int {
    abs(a.0 - b.0) + abs(a.1 - b.1)
}

fn abs_diff(a: i32, b: i32) -> (r: u64)
    ensures
        r as int == abs(a - b),
{
    if a >= b {
        (a as i64 - b as i64) as u64
    } else {
        (b as i64 - a as i64) as u64
    }
}

impl Position {
    /// Manhattan distance `|dx| + |dy|` to `other`.
    pub fn distance(&self, other: &Position) -> (r: u64)
        ensures
            r as int == manhattan(*self, *other),
    {
        abs_diff(self.0, other.0) + abs_diff(self.1, other.1)
    }
}

} // verus!
