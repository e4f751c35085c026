use vstd::prelude::*;
use crate::direction::CardinalDirection;

verus! {

/// The single bit that stands for one direction in a 4-bit direction set,
/// following the fixed [N, E, S, W] bit order (N is the lowest bit).
pub open spec fn spec_dir_bit(d: CardinalDirection) -> u8 {
    match d {
        CardinalDirection::N => 0x1u8,
        CardinalDirection::E => 0x2u8,
        CardinalDirection::S => 0x4u8,
        CardinalDirection::W => 0x8u8,
    }
}

/// Membership of a direction in a 4-bit direction set.
pub open spec fn spec_has_dir(b: u8, d: CardinalDirection) -> bool {
    match d {
        CardinalDirection::N => b & 0x1 == 0x1,
        CardinalDirection::E => b & 0x2 == 0x2,
        CardinalDirection::S => b & 0x4 == 0x4,
        CardinalDirection::W => b & 0x8 == 0x8,
    }
}

/// One cyclic step of a 4-bit direction set: the bit for each direction
/// moves to the next direction of the [N, E, S, W] cycle (N to E, E to S,
/// S to W, W to N), which is a clockwise quarter turn of the tile.
pub open spec fn spec_rot4_left_once(b: u8) -> u8 {
    (((b & 0xF) << 1) | ((b & 0xF) >> 3)) & 0xF
}

/// One cyclic step the other way round: N to W, W to S, S to E, E to N.
pub open spec fn spec_rot4_right_once(b: u8) -> u8 {
    (((b & 0xF) >> 1) | ((b & 0xF) << 3)) & 0xF
}

/// `k` clockwise steps of a 4-bit direction set.
pub open spec fn spec_rot4_left(b: u8, k: nat) -> u8
    decreases k,
{
    if k == 0 {
        b & 0xF
    } else {
        spec_rot4_left_once(spec_rot4_left(b, (k - 1) as nat))
    }
}

/// `k` counter-clockwise steps of a 4-bit direction set.
pub open spec fn spec_rot4_right(b: u8, k: nat) -> u8
    decreases k,
{
    if k == 0 {
        b & 0xF
    } else {
        spec_rot4_right_once(spec_rot4_right(b, (k - 1) as nat))
    }
}

/// A set of cardinal directions packed into the low 4 bits of a byte,
/// bit i standing for the i-th direction of the fixed [N, E, S, W] order.
#[derive(Debug, Clone, Copy, PartialEq, Eq, Structural)]
pub struct CardinalDirectionFlags {
    pub bits: u8,
}

impl CardinalDirectionFlags {
    /// The empty direction set.
    pub fn empty() -> (r: Self)
        ensures
            r.bits == 0,
    {
        CardinalDirectionFlags { bits: 0 }
    }

    /// The set of all four directions.
    pub fn all() -> (r: Self)
        ensures
            r.bits == 0xF,
    {
        CardinalDirectionFlags { bits: 0xF }
    }

    /// The singleton set holding one direction.
    pub fn from_direction(d: &CardinalDirection) -> (r: Self)
        ensures
            r.bits == spec_dir_bit(*d),
    {
        match d {
            CardinalDirection::N => CardinalDirectionFlags { bits: 0x1 },
            CardinalDirection::E => CardinalDirectionFlags { bits: 0x2 },
            CardinalDirection::S => CardinalDirectionFlags { bits: 0x4 },
            CardinalDirection::W => CardinalDirectionFlags { bits: 0x8 },
        }
    }

    /// Keeps the low 4 bits of a raw byte.
    pub fn from_bits_truncate(bits: u8) -> (r: Self)
        ensures
            r.bits == bits & 0xF,
    {
        CardinalDirectionFlags { bits: bits & 0xF }
    }

    pub open spec fn spec_has(&self, d: CardinalDirection) -> bool {
        spec_has_dir(self.bits, d)
    }

    /// Whether the set holds the given direction.
    pub fn has(&self, d: &CardinalDirection) -> (r: bool)
        ensures
            r == self.spec_has(*d),
    {
        match d {
            CardinalDirection::N => self.bits & 0x1 == 0x1,
            CardinalDirection::E => self.bits & 0x2 == 0x2,
            CardinalDirection::S => self.bits & 0x4 == 0x4,
            CardinalDirection::W => self.bits & 0x8 == 0x8,
        }
    }

    /// Set union by OR-ing the bits.
    pub fn union(self, other: Self) -> (r: Self)
        ensures
            r.bits == self.bits | other.bits,
    {
        CardinalDirectionFlags { bits: self.bits | other.bits }
    }

    /// Bitwise complement within the universe of the four directions.
    pub fn complement(self) -> (r: Self)
        ensures
            r.bits == !self.bits & 0xF,
    {
        CardinalDirectionFlags { bits: !self.bits & 0xF }
    }

    /// Rotates the 4-bit pattern cyclically by `amount` steps towards the
    /// next direction of the [N, E, S, W] cycle (a clockwise turn per step).
    pub fn rotate_left(&self, amount: u32) -> (r: Self)
        ensures
            r.bits == spec_rot4_left(self.bits, (amount % 4) as nat),
    {
        let k = amount % 4;
        let mut b = self.bits & 0xF;
        let mut i: u32 = 0;
        while i < k
            invariant
                i <= k,
                k < 4,
                b == spec_rot4_left(self.bits, i as nat),
            decreases k - i,
        {
            b = (((b & 0xF) << 1) | ((b & 0xF) >> 3)) & 0xF;
            i = i + 1;
        }
        CardinalDirectionFlags { bits: b }
    }

    /// Rotates the 4-bit pattern cyclically by `amount` steps towards the
    /// previous direction of the [N, E, S, W] cycle (counter-clockwise).
    pub fn rotate_right(&self, amount: u32) -> (r: Self)
        ensures
            r.bits == spec_rot4_right(self.bits, (amount % 4) as nat),
    {
        let k = amount % 4;
        let mut b = self.bits & 0xF;
        let mut i: u32 = 0;
        while i < k
            invariant
                i <= k,
                k < 4,
                b == spec_rot4_right(self.bits, i as nat),
            decreases k - i,
        {
            b = (((b & 0xF) >> 1) | ((b & 0xF) << 3)) & 0xF;
            i = i + 1;
        }
        CardinalDirectionFlags { bits: b }
    }

    /// The directions of the set as a list in the fixed [N, E, S, W] order.
    pub open spec fn spec_to_directions(&self) -> Seq<CardinalDirection> {
        let n = if spec_has_dir(self.bits, CardinalDirection::N) {
            seq![CardinalDirection::N]
        } else {
            Seq::empty()
        };
        let e = if spec_has_dir(self.bits, CardinalDirection::E) {
            seq![CardinalDirection::E]
        } else {
            Seq::empty()
        };
        let s = if spec_has_dir(self.bits, CardinalDirection::S) {
            seq![CardinalDirection::S]
        } else {
            Seq::empty()
        };
        let w = if spec_has_dir(self.bits, CardinalDirection::W) {
            seq![CardinalDirection::W]
        } else {
            Seq::empty()
        };
        n + e + s + w
    }

    pub fn to_directions(&self) -> (r: Vec<CardinalDirection>)
        ensures
            r@ == self.spec_to_directions(),
    {
        let mut out: Vec<CardinalDirection> = Vec::new();
        if self.bits & 0x1 == 0x1 {
            out.push(CardinalDirection::N);
        }
        if self.bits & 0x2 == 0x2 {
            out.push(CardinalDirection::E);
        }
        if self.bits & 0x4 == 0x4 {
            out.push(CardinalDirection::S);
        }
        if self.bits & 0x8 == 0x8 {
            out.push(CardinalDirection::W);
        }
        proof {
            assert(out@ =~= self.spec_to_directions());
        }
        out
    }
}

/// The nibble of a 16-bit oasis layout that holds slot `i` (slot 0 is the
/// low nibble).
pub open spec fn spec_nibble(bits: u16, i: int) -> u8 {
    if i == 0 {
        (bits & 0xF) as u8
    } else if i == 1 {
        ((bits >> 4) & 0xF) as u8
    } else if i == 2 {
        ((bits >> 8) & 0xF) as u8
    } else {
        ((bits >> 12) & 0xF) as u8
    }
}

/// Packs four 4-bit direction sets back into one 16-bit value.
pub open spec fn spec_combine(n0: u8, n1: u8, n2: u8, n3: u8) -> u16 {
    ((n0 & 0xF) as u16) | (((n1 & 0xF) as u16) << 4) | (((n2 & 0xF) as u16) << 8) | (((n3
        & 0xF) as u16) << 12)
}

/// The union of the four slot nibbles: all directions on which any oasis
/// slot of the layout has a connection.
pub open spec fn spec_fold(bits: u16) -> u8 {
    spec_nibble(bits, 0) | spec_nibble(bits, 1) | spec_nibble(bits, 2) | spec_nibble(bits, 3)
}

/// Whether any oasis slot of the layout connects on the given direction.
pub open spec fn spec_has_connection(bits: u16, d: CardinalDirection) -> bool {
    spec_has_dir(spec_fold(bits), d)
}

/// A tile's oasis connectivity: four independent 4-bit direction sets, one
/// per oasis slot, packed into a 16-bit value with slot 0 in the low nibble.
#[derive(Debug, Clone, Copy, PartialEq, Eq, Structural)]
pub struct OasisLayoutFlags {
    pub bits: u16,
}

impl OasisLayoutFlags {
    /// The layout with no oasis connection in any slot.
    pub fn empty() -> (r: Self)
        ensures
            r.bits == 0,
    {
        OasisLayoutFlags { bits: 0 }
    }

    /// Keeps the 16 packed bits of a raw value.
    pub fn from_bits_truncate(bits: u16) -> (r: Self)
        ensures
            r.bits == bits,
    {
        OasisLayoutFlags { bits }
    }

    /// Places one direction set in slot `idx`, all other slots empty.
    pub fn from_cardinal_direction_flags(f: &CardinalDirectionFlags, idx: u8) -> (r: Self)
        requires
            idx < 4,
        ensures
            r.bits == spec_combine(
                if idx == 0 { f.bits } else { 0 },
                if idx == 1 { f.bits } else { 0 },
                if idx == 2 { f.bits } else { 0 },
                if idx == 3 { f.bits } else { 0 },
            ),
    {
        let n = f.bits & 0xF;
        let bits: u16 = if idx == 0 {
            n as u16
        } else if idx == 1 {
            (n as u16) << 4
        } else if idx == 2 {
            (n as u16) << 8
        } else {
            (n as u16) << 12
        };
        proof {
            let fb = f.bits;
            if idx == 0 {
                assert(((fb & 0xF) as u16) == spec_combine(fb, 0, 0, 0)) by (bit_vector);
            } else if idx == 1 {
                assert((((fb & 0xF) as u16) << 4) == spec_combine(0, fb, 0, 0)) by (bit_vector);
            } else if idx == 2 {
                assert((((fb & 0xF) as u16) << 8) == spec_combine(0, 0, fb, 0)) by (bit_vector);
            } else {
                assert((((fb & 0xF) as u16) << 12) == spec_combine(0, 0, 0, fb)) by (bit_vector);
            }
        }
        OasisLayoutFlags { bits }
    }

    /// The direction set of one slot of the layout.
    pub fn slot(&self, idx: u8) -> (r: CardinalDirectionFlags)
        requires
            idx < 4,
        ensures
            r.bits == spec_nibble(self.bits, idx as int),
    {
        let n: u8 = if idx == 0 {
            (self.bits & 0xF) as u8
        } else if idx == 1 {
            ((self.bits >> 4) & 0xF) as u8
        } else if idx == 2 {
            ((self.bits >> 8) & 0xF) as u8
        } else {
            ((self.bits >> 12) & 0xF) as u8
        };
        CardinalDirectionFlags { bits: n }
    }

    /// Rotates every slot's direction set one step at a time, clockwise,
    /// `amount % 4` times; each nibble turns independently.
    pub fn rotate_left(&self, amount: u32) -> (r: Self)
        ensures
            r.bits == spec_combine(
                spec_rot4_left(spec_nibble(self.bits, 0), (amount % 4) as nat),
                spec_rot4_left(spec_nibble(self.bits, 1), (amount % 4) as nat),
                spec_rot4_left(spec_nibble(self.bits, 2), (amount % 4) as nat),
                spec_rot4_left(spec_nibble(self.bits, 3), (amount % 4) as nat),
            ),
    {
        let r0 = self.slot(0).rotate_left(amount);
        let r1 = self.slot(1).rotate_left(amount);
        let r2 = self.slot(2).rotate_left(amount);
        let r3 = self.slot(3).rotate_left(amount);
        OasisLayoutFlags {
            bits: ((r0.bits & 0xF) as u16) | (((r1.bits & 0xF) as u16) << 4) | (((r2.bits
                & 0xF) as u16) << 8) | (((r3.bits & 0xF) as u16) << 12),
        }
    }

    /// Rotates every slot's direction set counter-clockwise, `amount % 4`
    /// times; each nibble turns independently.
    pub fn rotate_right(&self, amount: u32) -> (r: Self)
        ensures
            r.bits == spec_combine(
                spec_rot4_right(spec_nibble(self.bits, 0), (amount % 4) as nat),
                spec_rot4_right(spec_nibble(self.bits, 1), (amount % 4) as nat),
                spec_rot4_right(spec_nibble(self.bits, 2), (amount % 4) as nat),
                spec_rot4_right(spec_nibble(self.bits, 3), (amount % 4) as nat),
            ),
    {
        let r0 = self.slot(0).rotate_right(amount);
        let r1 = self.slot(1).rotate_right(amount);
        let r2 = self.slot(2).rotate_right(amount);
        let r3 = self.slot(3).rotate_right(amount);
        OasisLayoutFlags {
            bits: ((r0.bits & 0xF) as u16) | (((r1.bits & 0xF) as u16) << 4) | (((r2.bits
                & 0xF) as u16) << 8) | (((r3.bits & 0xF) as u16) << 12),
        }
    }

    /// The union of all slots, as one direction set: the sides of the tile
    /// on which some oasis connection is present.
    pub fn combined(&self) -> (r: CardinalDirectionFlags)
        ensures
            r.bits == spec_fold(self.bits),
    {
        let n0 = (self.bits & 0xF) as u8;
        let n1 = ((self.bits >> 4) & 0xF) as u8;
        let n2 = ((self.bits >> 8) & 0xF) as u8;
        let n3 = ((self.bits >> 12) & 0xF) as u8;
        CardinalDirectionFlags { bits: n0 | n1 | n2 | n3 }
    }

    /// Whether any slot of the layout connects on the given direction.
    pub fn has_connection(&self, d: &CardinalDirection) -> (r: bool)
        ensures
            r == spec_has_connection(self.bits, *d),
    {
        self.combined().has(d)
    }
}

/// One clockwise step then one counter-clockwise step (or the other way
/// round) leaves a 4-bit direction set unchanged.
pub proof fn lemma_rot4_once_inverse(b: u8)
    ensures
        spec_rot4_right_once(spec_rot4_left_once(b)) == b & 0xF,
        spec_rot4_left_once(spec_rot4_right_once(b)) == b & 0xF,
{
    assert(spec_rot4_right_once(spec_rot4_left_once(b)) == b & 0xF) by (bit_vector);
    assert(spec_rot4_left_once(spec_rot4_right_once(b)) == b & 0xF) by (bit_vector);
}

/// Four clockwise steps bring a 4-bit direction set back to itself.
pub proof fn lemma_rot4_full_turn(b: u8)
    ensures
        spec_rot4_left(b, 4) == b & 0xF,
        spec_rot4_right(b, 4) == b & 0xF,
{
    reveal_with_fuel(spec_rot4_left, 5);
    reveal_with_fuel(spec_rot4_right, 5);
    assert(spec_rot4_left_once(spec_rot4_left_once(spec_rot4_left_once(spec_rot4_left_once(
        b & 0xF)))) == b & 0xF) by (bit_vector);
    assert(spec_rot4_right_once(spec_rot4_right_once(spec_rot4_right_once(spec_rot4_right_once(
        b & 0xF)))) == b & 0xF) by (bit_vector);
    assert((b & 0xF) & 0xF == b & 0xF) by (bit_vector);
    assert(spec_rot4_left(b, 4) == spec_rot4_left_once(spec_rot4_left_once(spec_rot4_left_once(
        spec_rot4_left_once(b & 0xF)))));
    assert(spec_rot4_right(b, 4) == spec_rot4_right_once(spec_rot4_right_once(
        spec_rot4_right_once(spec_rot4_right_once(b & 0xF)))));
}

/// One clockwise quarter turn of a whole oasis layout: every slot nibble
/// rotates one step, independently of the others.
pub open spec fn spec_layout_rot_cw(b: u16) -> u16 {
    spec_combine(
        spec_rot4_left(spec_nibble(b, 0), 1),
        spec_rot4_left(spec_nibble(b, 1), 1),
        spec_rot4_left(spec_nibble(b, 2), 1),
        spec_rot4_left(spec_nibble(b, 3), 1),
    )
}

/// One counter-clockwise quarter turn of a whole oasis layout.
pub open spec fn spec_layout_rot_ccw(b: u16) -> u16 {
    spec_combine(
        spec_rot4_right(spec_nibble(b, 0), 1),
        spec_rot4_right(spec_nibble(b, 1), 1),
        spec_rot4_right(spec_nibble(b, 2), 1),
        spec_rot4_right(spec_nibble(b, 3), 1),
    )
}

/// The two quarter turns of an oasis layout are mutual inverses.
pub proof fn lemma_layout_rot_inverse(b: u16)
    ensures
        spec_layout_rot_ccw(spec_layout_rot_cw(b)) == b,
        spec_layout_rot_cw(spec_layout_rot_ccw(b)) == b,
{
    reveal_with_fuel(spec_rot4_left, 2);
    reveal_with_fuel(spec_rot4_right, 2);
    assert(spec_layout_rot_ccw(spec_layout_rot_cw(b)) == b) by (bit_vector);
    assert(spec_layout_rot_cw(spec_layout_rot_ccw(b)) == b) by (bit_vector);
}

/// Four clockwise quarter turns bring an oasis layout back to itself.
pub proof fn lemma_layout_rot_full_turn(b: u16)
    ensures
        spec_layout_rot_cw(spec_layout_rot_cw(spec_layout_rot_cw(spec_layout_rot_cw(b)))) == b,
{
    reveal_with_fuel(spec_rot4_left, 2);
    assert(spec_layout_rot_cw(spec_layout_rot_cw(spec_layout_rot_cw(spec_layout_rot_cw(b))))
        == b) by (bit_vector);
}

} // verus!
