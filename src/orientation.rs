use vstd::prelude::*;

verus! {

/// The heading of the turmite on the grid.
#[derive(Clone, Copy, Debug, PartialEq, Eq, Structural)]
pub enum Orientation {
    Up,
    Right,
    Down,
    Left,
}

/// How a decision turns the turmite.
#[derive(Clone, Copy, Debug, PartialEq, Eq, Structural)]
pub enum Rotate {
    Clockwise,
    CounterClockwise,
    Noop,
    Uturn,
}

/// Heading after a half turn.
pub open spec fn uturn_of(o: Orientation) -> Orientation {
    match o {
        Orientation::Up => Orientation::Down,
        Orientation::Right => Orientation::Left,
        Orientation::Down => Orientation::Up,
        Orientation::Left => Orientation::Right,
    }
}

/// Heading after a quarter turn to the right.
pub open spec fn clockwise_of(o: Orientation) -> Orientation {
    match o {
        Orientation::Up => Orientation::Right,
        Orientation::Right => Orientation::Down,
        Orientation::Down => Orientation::Left,
        Orientation::Left => Orientation::Up,
    }
}

/// Heading after a quarter turn to the left.
pub open spec fn counter_clockwise_of(o: Orientation) -> Orientation {
    match o {
        Orientation::Up => Orientation::Left,
        Orientation::Left => Orientation::Down,
        Orientation::Down => Orientation::Right,
        Orientation::Right => Orientation::Up,
    }
}

/// Heading after applying a rotation.
pub open spec fn rotated(o: Orientation, r: Rotate) -> Orientation {
    match r {
        Rotate::Noop => o,
        Rotate::Clockwise => clockwise_of(o),
        Rotate::CounterClockwise => counter_clockwise_of(o),
        Rotate::Uturn => uturn_of(o),
    }
}

/// The number of quarter turns to the right from `Up`.
pub open spec fn quarter_turns(o: Orientation) -> int {
    match o {
        Orientation::Up => 0,
        Orientation::Right => 1,
        Orientation::Down => 2,
        Orientation::Left => 3,
    }
}

impl Orientation {
    pub fn uturn(&self) -> (r: Orientation)
        ensures
            r == uturn_of(*self),
    {
        match self {
            Orientation::Up => Orientation::Down,
            Orientation::Right => Orientation::Left,
            Orientation::Down => Orientation::Up,
            Orientation::Left => Orientation::Right,
        }
    }

    pub fn clockwise(&self) -> (r: Orientation)
        ensures
            r == clockwise_of(*self),
    {
        match self {
            Orientation::Up => Orientation::Right,
            Orientation::Right => Orientation::Down,
            Orientation::Down => Orientation::Left,
            Orientation::Left => Orientation::Up,
        }
    }

    pub fn counter_clockwise(&self) -> (r: Orientation)
        ensures
            r == counter_clockwise_of(*self),
    {
        match self {
            Orientation::Up => Orientation::Left,
            Orientation::Left => Orientation::Down,
            Orientation::Down => Orientation::Right,
            Orientation::Right => Orientation::Up,
        }
    }

    /// The heading after turning by `rotation`.
    pub fn rotate(&self, rotation: Rotate) -> (r: Orientation)
        ensures
            r == rotated(*self, rotation),
    {
        match rotation {
            Rotate::Noop => *self,
            Rotate::Clockwise => self.clockwise(),
            Rotate::CounterClockwise => self.counter_clockwise(),
            Rotate::Uturn => self.uturn(),
        }
    }
}

/// The headings form a cyclic group of order four under quarter turns:
/// a clockwise turn adds one quarter turn modulo four, four clockwise turns
/// come back to the start and fewer do not, clockwise and counter-clockwise
/// turns undo each other, and a half turn is its own inverse and equals two
/// clockwise turns.
pub proof fn lemma_orientation_cyclic(o: Orientation)
    ensures
        quarter_turns(clockwise_of(o)) == (quarter_turns(o) + 1) % 4,
        clockwise_of(clockwise_of(clockwise_of(clockwise_of(o)))) == o,
        clockwise_of(o) != o,
        clockwise_of(clockwise_of(o)) != o,
        clockwise_of(clockwise_of(clockwise_of(o))) != o,
        counter_clockwise_of(clockwise_of(o)) == o,
        clockwise_of(counter_clockwise_of(o)) == o,
        uturn_of(uturn_of(o)) == o,
        uturn_of(o) == clockwise_of(clockwise_of(o)),
{
}

} // verus!
