use vstd::prelude::*;

verus! {

/// One of the four sides of a tile, in the fixed iteration order
/// [N, E, S, W] that the bit packing of connection flags follows.
#[derive(Debug, Clone, Copy, PartialEq, Eq, Structural)]
pub enum CardinalDirection {
    N,
    E,
    S,
    W,
}

impl CardinalDirection {
    /// Position of this direction in the fixed [N, E, S, W] order,
    /// which is also its bit position in a direction-flag nibble.
    pub open spec fn spec_index(self) -> int {
        match self {
            CardinalDirection::N => 0,
            CardinalDirection::E => 1,
            CardinalDirection::S => 2,
            CardinalDirection::W => 3,
        }
    }

    /// The opposite direction: N and S swap, E and W swap.
    pub open spec fn spec_invert(&self) -> CardinalDirection {
        match self {
            CardinalDirection::N => CardinalDirection::S,
            CardinalDirection::E => CardinalDirection::W,
            CardinalDirection::S => CardinalDirection::N,
            CardinalDirection::W => CardinalDirection::E,
        }
    }

    #[verifier::when_used_as_spec(spec_invert)]
    pub fn invert(&self) -> (r: Self)
        ensures
            r == self.spec_invert(),
    {
        match self {
            CardinalDirection::N => CardinalDirection::S,
            CardinalDirection::E => CardinalDirection::W,
            CardinalDirection::S => CardinalDirection::N,
            CardinalDirection::W => CardinalDirection::E,
        }
    }

    /// Offset that one step towards this direction adds to a board
    /// coordinate: N raises y, E raises x, S lowers y, W lowers x.
    pub open spec fn spec_coordinate_offset(self) -> (int, int) {
        match self {
            CardinalDirection::N => (0int, 1int),
            CardinalDirection::E => (1int, 0int),
            CardinalDirection::S => (0int, -1int),
            CardinalDirection::W => (-1int, 0int),
        }
    }

    pub fn get_coordinate_offset(&self) -> (r: (i32, i32))
        ensures
            (r.0 as int, r.1 as int) == self.spec_coordinate_offset(),
    {
        match self {
            CardinalDirection::N => (0i32, 1i32),
            CardinalDirection::E => (1i32, 0i32),
            CardinalDirection::S => (0i32, -1i32),
            CardinalDirection::W => (-1i32, 0i32),
        }
    }

    /// The direction at a given position of the [N, E, S, W] cycle;
    /// indices wrap around modulo 4.
    pub open spec fn spec_from_index(value: int) -> CardinalDirection {
        if value % 4 == 0 {
            CardinalDirection::N
        } else if value % 4 == 1 {
            CardinalDirection::E
        } else if value % 4 == 2 {
            CardinalDirection::S
        } else {
            CardinalDirection::W
        }
    }

    pub fn from_index(value: usize) -> (r: Self)
        ensures
            r == Self::spec_from_index(value as int),
    {
        let rem: usize = value % 4;
        if rem == 0 {
            CardinalDirection::N
        } else if rem == 1 {
            CardinalDirection::E
        } else if rem == 2 {
            CardinalDirection::S
        } else {
            CardinalDirection::W
        }
    }

    fn _is_opposite(&self, side: &CardinalDirection) -> (r: bool)
        ensures
            r == (self.spec_invert() == *side),
    {
        self.invert() == *side
    }
}

/// Inverting a direction twice gives the direction back.
pub proof fn lemma_invert_involutive(d: CardinalDirection)
    ensures
        d.spec_invert().spec_invert() == d,
{
}

} // verus!
