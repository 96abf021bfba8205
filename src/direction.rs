use vstd::prelude::*;

verus! {

/// One of the four axis-aligned directions in which the snake's head travels.
#[derive(Clone, Copy, Debug, PartialEq, Eq, Structural)]
pub enum SnakeBlockDirection {
    Right,
    Left,
    Up,
    Down,
}

impl SnakeBlockDirection {
    /// True for `Right` and `Left`.
    pub open spec fn is_horizontal(self) -> bool {
        self is Right || self is Left
    }

    /// Two directions are perpendicular when they lie on different axes.
    pub open spec fn perpendicular(self, other: Self) -> bool {
        self.is_horizontal() != other.is_horizontal()
    }

    /// The direction pointing the other way along the same axis.
    pub open spec fn opposite(self) -> Self {
        match self {
            SnakeBlockDirection::Right => SnakeBlockDirection::Left,
            SnakeBlockDirection::Left => SnakeBlockDirection::Right,
            SnakeBlockDirection::Up => SnakeBlockDirection::Down,
            SnakeBlockDirection::Down => SnakeBlockDirection::Up,
        }
    }

    /// The direction held after asking to turn from `self` to `requested`:
    /// the request is taken only when it is perpendicular to `self`.
    pub open spec fn turned(self, requested: Self) -> Self {
        if requested.perpendicular(self) {
            requested
        } else {
            self
        }
    }

    /// Whether the direction lies on the x axis.
    pub fn is_horizontal_axis(&self) -> (r: bool)
        ensures
            r == self.is_horizontal(),
    {
        match self {
            SnakeBlockDirection::Right | SnakeBlockDirection::Left => true,
            SnakeBlockDirection::Up | SnakeBlockDirection::Down => false,
        }
    }

    /// Whether `self` and `other` lie on different axes.
    pub fn is_perpendicular_to(&self, other: &Self) -> (r: bool)
        ensures
            r == self.perpendicular(*other),
    {
        self.is_horizontal_axis() != other.is_horizontal_axis()
    }
}

/// A turn never reverses the direction: whatever is requested, the direction
/// held afterwards is not the opposite of the one held before.
pub proof fn lemma_turn_never_reverses(current: SnakeBlockDirection, requested: SnakeBlockDirection)
    ensures
        current.turned(requested) != current.opposite(),
{
}

} // verus!
