use vstd::prelude::*;
use crate::direction::CardinalDirection;
use crate::flags::{spec_has_connection, CardinalDirectionFlags, OasisLayoutFlags};
use crate::registry::BoardComponent;
use crate::text::str_eq;

verus! {

/// Offset added to a tile's board coordinates to reach the cell on the
/// given side of it.
pub fn calculate_direction_offset_for_side(direction: &CardinalDirection) -> (r: (i32, i32))
    ensures
        (r.0 as int, r.1 as int) == direction.spec_coordinate_offset(),
{
    match direction {
        CardinalDirection::N => (0i32, 1i32),
        CardinalDirection::E => (1i32, 0i32),
        CardinalDirection::S => (0i32, -1i32),
        CardinalDirection::W => (-1i32, 0i32),
    }
}

/// The board cell one step from (x, y) towards the given direction, if it
/// still lies on the 11 by 11 board.
pub open spec fn spec_placement_coordinates(x: u8, y: u8, d: CardinalDirection) -> Option<
    (u8, u8),
> {
    let nx = x + d.spec_coordinate_offset().0;
    let ny = y + d.spec_coordinate_offset().1;
    if 0 <= nx < 11 && 0 <= ny < 11 {
        Option::Some((nx as u8, ny as u8))
    } else {
        Option::None
    }
}

/// Computes the coordinates of the cell on the given side of (x, y);
/// nothing comes back when that cell would fall off the board.
pub fn placement_coordinates(x: u8, y: u8, direction: &CardinalDirection) -> (r: Option<(u8, u8)>)
    ensures
        r == spec_placement_coordinates(x, y, *direction),
{
    let (dx, dy) = calculate_direction_offset_for_side(direction);
    let nx: i32 = (x as i32) + dx;
    let ny: i32 = (y as i32) + dy;
    if 0 <= nx && nx < 11 && 0 <= ny && ny < 11 {
        Some((nx as u8, ny as u8))
    } else {
        None
    }
}

/// Whether a candidate layout agrees with one (possibly absent) neighbor
/// on the edge they would share: an absent neighbor imposes no constraint;
/// a present one must have an oasis connection on its side facing the
/// candidate exactly when the candidate has one on its side facing the
/// neighbor.
pub open spec fn spec_edge_compatible(
    candidate: u16,
    neighbor: Option<OasisLayoutFlags>,
    d: CardinalDirection,
) -> bool {
    match neighbor {
        Option::Some(n) => spec_has_connection(candidate, d) == spec_has_connection(
            n.bits,
            d.spec_invert(),
        ),
        Option::None => true,
    }
}

/// Whether a candidate layout may be placed among the four neighbors given
/// in [N, E, S, W] order: every present neighbor must agree with the
/// candidate on their shared edge; one mismatch makes the whole placement
/// illegal.
pub open spec fn spec_legal_to_place(
    candidate: u16,
    neighbors: Seq<Option<OasisLayoutFlags>>,
) -> bool {
    forall|i: int|
        0 <= i < 4 ==> spec_edge_compatible(
            candidate,
            #[trigger] neighbors[i],
            CardinalDirection::spec_from_index(i),
        )
}

/// Decides whether a candidate tile's oasis layout is compatible with the
/// tiles already occupying the four cells around its prospective position,
/// given in [N, E, S, W] order; an empty cell is no constraint.
pub fn legal_to_place(
    candidate: &OasisLayoutFlags,
    neighbors: &[Option<OasisLayoutFlags>; 4],
) -> (r: bool)
    ensures
        r == spec_legal_to_place(candidate.bits, neighbors@),
{
    let mut i: usize = 0;
    while i < 4
        invariant
            i <= 4,
            forall|k: int|
                0 <= k < i ==> spec_edge_compatible(
                    candidate.bits,
                    #[trigger] neighbors@[k],
                    CardinalDirection::spec_from_index(k),
                ),
        decreases 4 - i,
    {
        let d = CardinalDirection::from_index(i);
        match &neighbors[i] {
            Some(n) => {
                let candidate_side = candidate.has_connection(&d);
                let neighbor_side = n.has_connection(&d.invert());
                if candidate_side != neighbor_side {
                    return false;
                }
            },
            None => {},
        }
        i = i + 1;
    }
    true
}

/// The identifiers of the tiles occupying the four cells around (x, y),
/// in [N, E, S, W] order; a side whose cell is empty or off the board
/// holds nothing.
pub fn adjacent_tile_ids(board: &BoardComponent, x: u8, y: u8) -> (r: [Option<u64>; 4])
    requires
        board.wf(),
    ensures
        forall|i: int|
            0 <= i < 4 ==> #[trigger] r@[i] == spec_adjacent_id(
                board,
                x,
                y,
                CardinalDirection::spec_from_index(i),
            ),
{
    let n = adjacent_tile_id(board, x, y, &CardinalDirection::N);
    let e = adjacent_tile_id(board, x, y, &CardinalDirection::E);
    let s = adjacent_tile_id(board, x, y, &CardinalDirection::S);
    let w = adjacent_tile_id(board, x, y, &CardinalDirection::W);
    let r = [n, e, s, w];
    proof {
        assert(r@[0] == n && r@[1] == e && r@[2] == s && r@[3] == w);
    }
    r
}

/// The id of the tile in the cell on the given side of (x, y), if that
/// cell lies on the board and is occupied.
pub open spec fn spec_adjacent_id(
    board: &BoardComponent,
    x: u8,
    y: u8,
    d: CardinalDirection,
) -> Option<u64> {
    match spec_placement_coordinates(x, y, d) {
        Option::Some(c) => {
            if board.spec_id_at(c.0 as int, c.1 as int) != 0 {
                Option::Some(board.spec_id_at(c.0 as int, c.1 as int))
            } else {
                Option::None
            }
        },
        Option::None => Option::None,
    }
}

/// Looks up the occupant of the cell on the given side of (x, y).
pub fn adjacent_tile_id(board: &BoardComponent, x: u8, y: u8, d: &CardinalDirection) -> (r: Option<
    u64,
>)
    requires
        board.wf(),
    ensures
        r == spec_adjacent_id(board, x, y, *d),
{
    match placement_coordinates(x, y, d) {
        Some(c) => match board.get_tile_id_at(c.0, c.1) {
            Ok(id) => Some(id),
            Err(_) => None,
        },
        None => None,
    }
}

/// Legality agrees across a shared edge: with a single neighbor to the
/// candidate's East whose West edge has an oasis connection, a candidate
/// with an East connection is legal; if the neighbor's West edge has no
/// connection while the candidate's East edge has one, it is not.
pub proof fn lemma_legality_symmetry(
    a: u16,
    b: OasisLayoutFlags,
    neighbors: Seq<Option<OasisLayoutFlags>>,
)
    requires
        neighbors.len() == 4,
        neighbors[0] is None,
        neighbors[1] == Option::Some(b),
        neighbors[2] is None,
        neighbors[3] is None,
        spec_has_connection(a, CardinalDirection::E),
    ensures
        spec_has_connection(b.bits, CardinalDirection::W) ==> spec_legal_to_place(a, neighbors),
        !spec_has_connection(b.bits, CardinalDirection::W) ==> !spec_legal_to_place(a, neighbors),
{
    if spec_has_connection(b.bits, CardinalDirection::W) {
        assert forall|i: int| 0 <= i < 4 implies spec_edge_compatible(
            a,
            #[trigger] neighbors[i],
            CardinalDirection::spec_from_index(i),
        ) by {
            if i == 1 {
                assert(CardinalDirection::spec_from_index(1) == CardinalDirection::E);
            }
        }
    } else {
        assert(!spec_edge_compatible(a, neighbors[1], CardinalDirection::spec_from_index(1)));
    }
}

/// The board cell a fixed cross tile occupies: the center sits at (5, 5)
/// and each arm runs five cells outward from it, `cross_index` counting
/// from the cell next to the center.
pub fn cross_tile_coordinates(cross_id: &str, cross_index: u8) -> (r: Option<(u8, u8)>)
    requires
        cross_index < 5,
    ensures
        cross_id@ == "cross_c"@ ==> r == Some((5u8, 5u8)),
        cross_id@ == "cross_n"@ ==> r == Some((5u8, (cross_index + 6) as u8)),
        cross_id@ == "cross_e"@ ==> r == Some(((cross_index + 6) as u8, 5u8)),
        cross_id@ == "cross_s"@ ==> r == Some((5u8, (4 - cross_index) as u8)),
        cross_id@ == "cross_w"@ ==> r == Some(((4 - cross_index) as u8, 5u8)),
        cross_id@ != "cross_c"@ && cross_id@ != "cross_n"@ && cross_id@ != "cross_e"@
            && cross_id@ != "cross_s"@ && cross_id@ != "cross_w"@ ==> r is None,
    {
    proof {
        reveal_strlit("cross_c");
        reveal_strlit("cross_n");
        reveal_strlit("cross_e");
        reveal_strlit("cross_s");
        reveal_strlit("cross_w");
        assert("cross_c"@[6] == 'c' && "cross_n"@[6] == 'n' && "cross_e"@[6] == 'e'
            && "cross_s"@[6] == 's' && "cross_w"@[6] == 'w');
    }
    if str_eq(cross_id, "cross_c") {
        Some((5, 5))
    } else if str_eq(cross_id, "cross_n") {
        Some((5, cross_index + 6))
    } else if str_eq(cross_id, "cross_e") {
        Some((cross_index + 6, 5))
    } else if str_eq(cross_id, "cross_s") {
        Some((5, 4 - cross_index))
    } else if str_eq(cross_id, "cross_w") {
        Some((4 - cross_index, 5))
    } else {
        None
    }
}

/// The sides on which a fixed cross tile touches the world outside the
/// cross: the center touches all four; an inner arm tile the two along
/// its arm's axis; the outermost arm tile only the side back towards the
/// center.
pub fn cross_outside_connections(cross_id: &str, cross_index: u8) -> (r: Option<
    CardinalDirectionFlags,
>)
    requires
        cross_index < 5,
    ensures
        cross_id@ == "cross_c"@ ==> (r matches Some(f) && f.bits == 0xF),
        cross_id@ == "cross_n"@ ==> (r matches Some(f) && f.bits == if cross_index < 4 {
            0x5u8
        } else {
            0x4u8
        }),
        cross_id@ == "cross_e"@ ==> (r matches Some(f) && f.bits == if cross_index < 4 {
            0xAu8
        } else {
            0x8u8
        }),
        cross_id@ == "cross_s"@ ==> (r matches Some(f) && f.bits == if cross_index < 4 {
            0x5u8
        } else {
            0x1u8
        }),
        cross_id@ == "cross_w"@ ==> (r matches Some(f) && f.bits == if cross_index < 4 {
            0xAu8
        } else {
            0x2u8
        }),
        cross_id@ != "cross_c"@ && cross_id@ != "cross_n"@ && cross_id@ != "cross_e"@
            && cross_id@ != "cross_s"@ && cross_id@ != "cross_w"@ ==> r is None,
    {
    proof {
        reveal_strlit("cross_c");
        reveal_strlit("cross_n");
        reveal_strlit("cross_e");
        reveal_strlit("cross_s");
        reveal_strlit("cross_w");
        assert("cross_c"@[6] == 'c' && "cross_n"@[6] == 'n' && "cross_e"@[6] == 'e'
            && "cross_s"@[6] == 's' && "cross_w"@[6] == 'w');
    }
    if str_eq(cross_id, "cross_c") {
        Some(CardinalDirectionFlags::all())
    } else if str_eq(cross_id, "cross_n") {
        if cross_index < 4 {
            Some(CardinalDirectionFlags { bits: 0x5 })
        } else {
            Some(CardinalDirectionFlags { bits: 0x4 })
        }
    } else if str_eq(cross_id, "cross_e") {
        if cross_index < 4 {
            Some(CardinalDirectionFlags { bits: 0xA })
        } else {
            Some(CardinalDirectionFlags { bits: 0x8 })
        }
    } else if str_eq(cross_id, "cross_s") {
        if cross_index < 4 {
            Some(CardinalDirectionFlags { bits: 0x5 })
        } else {
            Some(CardinalDirectionFlags { bits: 0x1 })
        }
    } else if str_eq(cross_id, "cross_w") {
        if cross_index < 4 {
            Some(CardinalDirectionFlags { bits: 0xA })
        } else {
            Some(CardinalDirectionFlags { bits: 0x2 })
        }
    } else {
        None
    }
}

} // verus!
