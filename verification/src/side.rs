//! The four directions of a node and their numbering.

use vstd::prelude::*;

verus! {

/// One of the four directions in which a node may have a neighbour.
#[derive(Clone, Copy, PartialEq, Eq, Debug, Structural)]
pub enum Side {
    Left,
    Right,
    Up,
    Down,
}

impl Side {
    /// The number of the side: 0 for left, 1 for right, 2 for up, 3 for down.
    pub open spec fn spec_index(self) -> int {
        match self {
            Side::Left => 0,
            Side::Right => 1,
            Side::Up => 2,
            Side::Down => 3,
        }
    }

    /// The side with the given number; left for a number that names no side.
    pub open spec fn spec_from_index(i: int) -> Side {
        if i == 1 {
            Side::Right
        } else if i == 2 {
            Side::Up
        } else if i == 3 {
            Side::Down
        } else {
            Side::Left
        }
    }

    /// The side a neighbour sees this link on.
    pub open spec fn spec_opposite(self) -> Side {
        match self {
            Side::Left => Side::Right,
            Side::Right => Side::Left,
            Side::Up => Side::Down,
            Side::Down => Side::Up,
        }
    }

    /// The stable number of the side, used to index the peers of a node and to
    /// place the descriptors of its link.
    pub fn index(self) -> (i: usize)
        ensures
            i == self.spec_index(),
            i < 4,
    {
        match self {
            Side::Left => 0,
            Side::Right => 1,
            Side::Up => 2,
            Side::Down => 3,
        }
    }

    /// The side numbered `i`.
    pub fn from_index(i: usize) -> (side: Side)
        requires
            i < 4,
        ensures
            side == Side::spec_from_index(i as int),
            side.spec_index() == i,
    {
        if i == 0 {
            Side::Left
        } else if i == 1 {
            Side::Right
        } else if i == 2 {
            Side::Up
        } else {
            Side::Down
        }
    }

    /// The side on which the neighbour across this side sees the same link.
    pub fn opposite(self) -> (other: Side)
        ensures
            other == self.spec_opposite(),
    {
        match self {
            Side::Left => Side::Right,
            Side::Right => Side::Left,
            Side::Up => Side::Down,
            Side::Down => Side::Up,
        }
    }

    /// Turning a side around twice gives the side back, and no side is its own
    /// opposite.
    pub proof fn opposite_is_involution(side: Side)
        ensures
            side.spec_opposite().spec_opposite() == side,
            side.spec_opposite() != side,
    {
    }

    /// Numbering a side and reading the number back gives the same side, and
    /// every number below four is the number of the side it names.
    pub proof fn index_round_trip(side: Side, i: int)
        ensures
            0 <= side.spec_index() < 4,
            Side::spec_from_index(side.spec_index()) == side,
            0 <= i < 4 ==> Side::spec_from_index(i).spec_index() == i,
    {
    }
}

} // verus!
