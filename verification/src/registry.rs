use vstd::prelude::*;
use std::collections::HashMap;

verus! {

/// The side of the square board: coordinates run from 0 to 10 on each axis.
pub const BOARD_SIDE: u8 = 11;

/// Why a tile could not be added to the board.
#[derive(Debug, Clone, PartialEq, Eq, Structural)]
pub enum TileAddError {
    /// The cell at the carried coordinates is already occupied.
    TileExistsError(u8, u8),
    /// The carried coordinates lie outside the board.
    OutOfBoundsError(u8, u8),
}

/// Why a board lookup found nothing.
#[derive(Debug, Clone, PartialEq, Eq, Structural)]
pub enum TileGetError {
    /// No tile occupies the cell at the carried coordinates.
    TileCoordinateNotFoundError(u8, u8),
    /// No placed tile has the carried identifier.
    TileIdNotFoundError(u64),
    /// The carried coordinates lie outside the board.
    OutOfBoundsError(u8, u8),
}

/// The position of a board cell in the flattened row-major grid.
pub open spec fn spec_cell(x: int, y: int) -> int {
    x * 11 + y
}

/// An 11 by 11 grid of optional tile identifiers (0 is the empty sentinel,
/// any other value an opaque tile id), together with the inverse map from
/// tile id to coordinates and the pointer to the deck that currently
/// accepts draws. Every nonzero id sits in exactly one cell and has
/// exactly one inverse-map entry.
#[derive(Debug)]
pub struct BoardComponent {
    placed_tiles: Vec<u64>,
    tile_coordinates: HashMap<u64, (u8, u8)>,
    active_tile_deck: u8,
}

impl BoardComponent {
    /// The identifier stored in the cell at the given coordinates.
    pub closed spec fn spec_id_at(&self, x: int, y: int) -> u64 {
        self.placed_tiles@[spec_cell(x, y)]
    }

    /// The inverse map from placed tile id to its coordinates.
    pub closed spec fn spec_coords(&self) -> Map<u64, (u8, u8)> {
        self.tile_coordinates@
    }

    /// The deck (0 to 4) that currently accepts draws; 5 means every deck
    /// has been left behind and the game accepts no more draws.
    pub closed spec fn spec_active_deck(&self) -> u8 {
        self.active_tile_deck
    }

    /// The occupancy invariant: the grid has its 121 cells, every nonzero
    /// cell has a matching inverse-map entry, and every inverse-map entry
    /// points back at its own cell.
    pub closed spec fn wf(&self) -> bool {
        &&& self.placed_tiles@.len() == 121
        &&& forall|x: int, y: int|
            0 <= x < 11 && 0 <= y < 11 && #[trigger] self.spec_id_at(x, y) != 0
                ==> self.spec_coords().contains_key(self.spec_id_at(x, y))
                && self.spec_coords()[self.spec_id_at(x, y)] == (x as u8, y as u8)
        &&& forall|id: u64| #[trigger]
            self.spec_coords().contains_key(id) ==> id != 0 && self.spec_coords()[id].0 < 11
                && self.spec_coords()[id].1 < 11 && self.spec_id_at(
                self.spec_coords()[id].0 as int,
                self.spec_coords()[id].1 as int,
            ) == id
    }

    /// An empty board: every cell holds the empty sentinel, no tile is
    /// registered, and the first deck is the active one.
    pub fn new() -> (r: BoardComponent)
        ensures
            r.wf(),
            forall|x: int, y: int| 0 <= x < 11 && 0 <= y < 11 ==> #[trigger] r.spec_id_at(x, y)
                == 0,
            r.spec_coords() == Map::<u64, (u8, u8)>::empty(),
            r.spec_active_deck() == 0,
    {
        let mut grid: Vec<u64> = Vec::new();
        let mut i: usize = 0;
        while i < 121
            invariant
                i <= 121,
                grid@.len() == i,
                forall|k: int| 0 <= k < i ==> grid@[k] == 0,
            decreases 121 - i,
        {
            grid.push(0);
            i = i + 1;
        }
        BoardComponent {
            placed_tiles: grid,
            tile_coordinates: HashMap::new(),
            active_tile_deck: 0,
        }
    }

    /// Stores a fresh nonzero tile id in the cell at (x, y). Coordinates
    /// off the board are refused, and an occupied cell is refused without
    /// being overwritten; only an empty in-bounds cell accepts the tile.
    pub fn add_tile_at(&mut self, id: u64, x: u8, y: u8) -> (r: Result<(), TileAddError>)
        requires
            old(self).wf(),
            id != 0,
            !old(self).spec_coords().contains_key(id),
        ensures
            final(self).wf(),
            final(self).spec_active_deck() == old(self).spec_active_deck(),
            x >= 11 || y >= 11 ==> r == Err::<(), TileAddError>(TileAddError::OutOfBoundsError(
                x,
                y,
            )) && *final(self) == *old(self),
            x < 11 && y < 11 && old(self).spec_id_at(x as int, y as int) != 0 ==> r == Err::<
                (),
                TileAddError,
            >(TileAddError::TileExistsError(x, y)) && *final(self) == *old(self),
            x < 11 && y < 11 && old(self).spec_id_at(x as int, y as int) == 0 ==> {
                &&& r == Ok::<(), TileAddError>(())
                &&& final(self).spec_id_at(x as int, y as int) == id
                &&& forall|a: int, b: int|
                    0 <= a < 11 && 0 <= b < 11 && !(a == x && b == y)
                        ==> #[trigger] final(self).spec_id_at(a, b) == old(self).spec_id_at(a, b)
                &&& final(self).spec_coords() == old(self).spec_coords().insert(id, (x, y))
            },
    {
        if x >= BOARD_SIDE || y >= BOARD_SIDE {
            return Err(TileAddError::OutOfBoundsError(x, y));
        }
        let idx: usize = (x as usize) * 11 + (y as usize);
        if self.placed_tiles[idx] != 0 {
            return Err(TileAddError::TileExistsError(x, y));
        }
        self.placed_tiles[idx] = id;
        self.tile_coordinates.insert(id, (x, y));
        proof {
            assert forall|a: int, b: int|
                0 <= a < 11 && 0 <= b < 11 && !(a == x as int && b == y as int) implies #[trigger]
                self.spec_id_at(a, b) == old(self).spec_id_at(a, b) by {
                assert(spec_cell(a, b) != spec_cell(x as int, y as int)) by (nonlinear_arith)
                    requires
                        0 <= a < 11,
                        0 <= b < 11,
                        0 <= x < 11,
                        0 <= y < 11,
                        !(a == x as int && b == y as int),
                ;
            }
            assert(self.wf()) by {
                assert forall|a: int, b: int|
                    0 <= a < 11 && 0 <= b < 11 && #[trigger] self.spec_id_at(a, b) != 0 implies
                    self.spec_coords().contains_key(self.spec_id_at(a, b))
                    && self.spec_coords()[self.spec_id_at(a, b)] == (a as u8, b as u8) by {
                    if !(a == x as int && b == y as int) {
                        assert(old(self).spec_id_at(a, b) == self.spec_id_at(a, b));
                        assert(old(self).spec_id_at(a, b) != id);
                    }
                }
            }
        }
        Ok(())
    }

    /// Looks up the id of the tile occupying the cell at (x, y): an error
    /// names coordinates off the board or an empty cell; otherwise the
    /// stored id comes back.
    pub fn get_tile_id_at(&self, x: u8, y: u8) -> (r: Result<u64, TileGetError>)
        requires
            self.wf(),
        ensures
            x >= 11 || y >= 11 ==> r == Err::<u64, TileGetError>(TileGetError::OutOfBoundsError(
                x,
                y,
            )),
            x < 11 && y < 11 && self.spec_id_at(x as int, y as int) == 0 ==> r == Err::<
                u64,
                TileGetError,
            >(TileGetError::TileCoordinateNotFoundError(x, y)),
            x < 11 && y < 11 && self.spec_id_at(x as int, y as int) != 0 ==> r == Ok::<
                u64,
                TileGetError,
            >(self.spec_id_at(x as int, y as int)),
    {
        if x >= BOARD_SIDE || y >= BOARD_SIDE {
            return Err(TileGetError::OutOfBoundsError(x, y));
        }
        let idx: usize = (x as usize) * 11 + (y as usize);
        let id = self.placed_tiles[idx];
        if id == 0 {
            return Err(TileGetError::TileCoordinateNotFoundError(x, y));
        }
        Ok(id)
    }

    /// Looks up where the tile with the given id sits: its coordinates if
    /// it is placed, an error naming the id if it is not.
    pub fn get_tile_coordinates(&self, id: u64) -> (r: Result<(u8, u8), TileGetError>)
        requires
            self.wf(),
        ensures
            self.spec_coords().contains_key(id) ==> r == Ok::<(u8, u8), TileGetError>(
                self.spec_coords()[id],
            ),
            !self.spec_coords().contains_key(id) ==> r == Err::<(u8, u8), TileGetError>(
                TileGetError::TileIdNotFoundError(id),
            ),
    {
        match self.tile_coordinates.get(&id) {
            Some(c) => Ok(*c),
            None => Err(TileGetError::TileIdNotFoundError(id)),
        }
    }

    /// The deck that currently accepts draws (0 to 4), or 5 once every
    /// deck has been left behind.
    pub fn active_tile_deck(&self) -> (r: u8)
        ensures
            r == self.spec_active_deck(),
    {
        self.active_tile_deck
    }

    /// Moves the active-deck pointer to the next of the 5 decks; after the
    /// fifth deck the pointer stays at the terminal value 5 (no more
    /// decks) instead of wrapping around.
    pub fn advance_active_deck(&mut self)
        ensures
            final(self).spec_active_deck() == if old(self).spec_active_deck() < 5 {
                old(self).spec_active_deck() + 1
            } else {
                old(self).spec_active_deck() as int
            },
            old(self).wf() ==> final(self).wf(),
            final(self).spec_coords() == old(self).spec_coords(),
            forall|x: int, y: int| #[trigger]
                final(self).spec_id_at(x, y) == old(self).spec_id_at(x, y),
    {
        if self.active_tile_deck < 5 {
            self.active_tile_deck = self.active_tile_deck + 1;
        }
        proof {
            if old(self).wf() {
                assert forall|x: int, y: int|
                    0 <= x < 11 && 0 <= y < 11 && #[trigger] self.spec_id_at(x, y) != 0 implies
                    self.spec_coords().contains_key(self.spec_id_at(x, y))
                    && self.spec_coords()[self.spec_id_at(x, y)] == (x as u8, y as u8) by {
                    assert(self.spec_id_at(x, y) == old(self).spec_id_at(x, y));
                }
                assert forall|id: u64| #[trigger] self.spec_coords().contains_key(id) implies id
                    != 0 && self.spec_coords()[id].0 < 11 && self.spec_coords()[id].1 < 11
                    && self.spec_id_at(
                    self.spec_coords()[id].0 as int,
                    self.spec_coords()[id].1 as int,
                ) == id by {
                    assert(old(self).spec_coords().contains_key(id));
                }
                assert(self.wf());
            }
        }
    }
}

/// The board occupancy invariant makes the two lookups mutual inverses:
/// on a well-formed board, a cell holding a nonzero id is exactly the cell
/// the inverse map gives for that id, and the other way round.
pub proof fn lemma_board_occupancy_inverse(b: BoardComponent, id: u64, x: u8, y: u8)
    requires
        b.wf(),
        x < 11,
        y < 11,
    ensures
        b.spec_id_at(x as int, y as int) == id && id != 0 ==> b.spec_coords().contains_key(id)
            && b.spec_coords()[id] == (x, y),
        b.spec_coords().contains_key(id) && b.spec_coords()[id] == (x, y) ==> id != 0
            && b.spec_id_at(x as int, y as int) == id,
{
}

} // verus!
