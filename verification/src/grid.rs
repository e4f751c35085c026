use vstd::prelude::*;

verus! {

/// The tradeable resources of the prototype board model.
#[derive(Clone, Copy, Debug, PartialEq, Eq, Structural)]
pub enum Resource {
    Myrrh,
    Salt,
    Gem,
    Incense,
}

/// A water bonus: a single or a double well.
#[derive(Clone, Copy, Debug, PartialEq, Eq, Structural)]
pub enum Water {
    Single,
    Double,
}

/// A bonus marker an oasis can carry.
#[derive(Clone, Copy, Debug, PartialEq, Eq, Structural)]
pub enum Bonus {
    Water(Water),
    Rumor,
    Camel,
}

/// One oasis of a tile: which of the four sides it touches, and what it
/// yields.
#[derive(Clone, Debug)]
pub struct Oasis {
    pub position: [bool; 4],
    pub resources: Vec<Resource>,
    pub bonuses: Vec<Bonus>,
}

/// A tile of the prototype board model: desert, or a set of oases.
#[derive(Clone, Debug)]
pub enum Tile {
    NonDesert(Vec<Oasis>),
    Desert,
}

/// Whether any oasis of the list touches any side.
pub open spec fn spec_any_connection(oases: Seq<Oasis>) -> bool {
    exists|i: int, j: int| 0 <= i < oases.len() && 0 <= j < 4 && oases[i].position@[j]
}

impl Tile {
    /// Builds a tile from an optional list of oases: without a list, or
    /// when no oasis touches any side, the tile is desert; otherwise it
    /// keeps its oases.
    pub fn new(oases_param: Option<Vec<Oasis>>) -> (r: Self)
        ensures
            oases_param is None ==> r is Desert,
            oases_param matches Some(o) ==> (!spec_any_connection(o@) ==> r is Desert),
            oases_param matches Some(o) ==> (spec_any_connection(o@) ==> (r
                matches Tile::NonDesert(v) && v@ == o@)),
    {
        if let Some(oases) = oases_param {
            let mut found = false;
            let mut i: usize = 0;
            while i < oases.len()
                invariant
                    i <= oases@.len(),
                    found == exists|a: int, b: int|
                        0 <= a < i && 0 <= b < 4 && oases@[a].position@[b],
                decreases oases@.len() - i,
            {
                let p = &oases[i].position;
                if p[0] || p[1] || p[2] || p[3] {
                    proof {
                        let b = choose|b: int| 0 <= b < 4 && oases@[i as int].position@[b];
                        assert(oases@[i as int].position@[b]);
                    }
                    found = true;
                }
                i = i + 1;
            }
            if !found {
                return Self::Desert;
            }
            Self::NonDesert(oases)
        } else {
            Self::Desert
        }
    }
}

/// The four sides of the board cross, in the order the filling walks
/// them.
#[derive(Clone, Copy, Debug, PartialEq, Eq, Structural)]
pub enum Side {
    North,
    East,
    South,
    West,
}

impl Side {
    /// The side at a position of the walking order; positions past the
    /// end are refused.
    pub fn try_from_index(value: usize) -> (r: Result<Side, ()>)
        ensures
            value == 0 ==> r == Ok::<Side, ()>(Side::North),
            value == 1 ==> r == Ok::<Side, ()>(Side::East),
            value == 2 ==> r == Ok::<Side, ()>(Side::South),
            value == 3 ==> r == Ok::<Side, ()>(Side::West),
            value > 3 ==> r == Err::<Side, ()>(()),
    {
        match value {
            0 => Ok(Side::North),
            1 => Ok(Side::East),
            2 => Ok(Side::South),
            3 => Ok(Side::West),
            _ => Err(()),
        }
    }
}

/// An 11 by 11 grid of optional prototype tiles, row-major.
#[derive(Debug)]
pub struct Board(pub Vec<Vec<Option<Tile>>>);

impl Board {
    /// The grid has its 11 rows of 11 cells.
    pub open spec fn wf(&self) -> bool {
        self.0@.len() == 11 && forall|i: int| 0 <= i < 11 ==> #[trigger] self.0@[i]@.len() == 11
    }

    /// The tile in the cell at row `i`, column `j`.
    pub open spec fn spec_cell(&self, i: int, j: int) -> Option<Tile> {
        self.0@[i]@[j]
    }
}

impl Default for Board {
    /// An empty grid: 11 rows of 11 empty cells.
    fn default() -> (r: Self)
        ensures
            r.wf(),
            forall|i: int, j: int| 0 <= i < 11 && 0 <= j < 11 ==> #[trigger] r.spec_cell(i, j)
                is None,
    {
        let mut rows: Vec<Vec<Option<Tile>>> = Vec::new();
        let mut i: usize = 0;
        while i < 11
            invariant
                i <= 11,
                rows@.len() == i,
                forall|a: int| 0 <= a < i ==> #[trigger] rows@[a]@.len() == 11,
                forall|a: int, b: int|
                    0 <= a < i && 0 <= b < 11 ==> #[trigger] rows@[a]@[b] is None,
            decreases 11 - i,
        {
            let mut row: Vec<Option<Tile>> = Vec::new();
            let mut j: usize = 0;
            while j < 11
                invariant
                    j <= 11,
                    row@.len() == j,
                    forall|b: int| 0 <= b < j ==> #[trigger] row@[b] is None,
                decreases 11 - j,
            {
                row.push(None);
                j = j + 1;
            }
            rows.push(row);
            i = i + 1;
        }
        Board(rows)
    }
}

/// The tile the `k`-th cell of arm `s` receives, if that arm was given.
pub open spec fn spec_side_tile(
    sides: Seq<Option<Vec<Option<Tile>>>>,
    s: int,
    k: int,
) -> Option<Tile> {
    match sides[s] {
        Option::Some(ts) => ts@[k],
        Option::None => Option::None,
    }
}

/// The tile a filled board holds at row `i`, column `j`: the four arms of
/// the cross run along row 5 and column 5, five cells each, walked
/// outward; every other cell (the center among them) stays empty.
pub open spec fn spec_cross_cell(
    cross: Option<Vec<Option<Vec<Option<Tile>>>>>,
    i: int,
    j: int,
) -> Option<Tile> {
    match cross {
        Option::None => Option::None,
        Option::Some(sides) => {
            let sv = sides@;
            if j == 5 && 0 <= i < 5 {
                spec_side_tile(sv, 0, i)
            } else if i == 5 && 6 <= j < 11 {
                spec_side_tile(sv, 1, j - 6)
            } else if j == 5 && 6 <= i < 11 {
                spec_side_tile(sv, 2, i - 6)
            } else if i == 5 && 0 <= j < 5 {
                spec_side_tile(sv, 3, j)
            } else {
                Option::None
            }
        },
    }
}

/// Filling a board with the four arms of the starting cross.
pub trait Cross {
    /// Lays the given arms (north, east, south, west, in that order) onto
    /// an empty board; a missing arm leaves its cells empty.
    fn fill(cross: Option<Vec<Option<Vec<Option<Tile>>>>>) -> (r: Board)
        requires
            cross matches Some(sides) ==> sides@.len() == 4 && (forall|s: int|
                0 <= s < 4 ==> (#[trigger] sides@[s] matches Some(ts) ==> ts@.len() == 5)),
        ensures
            r.wf(),
            forall|i: int, j: int|
                0 <= i < 11 && 0 <= j < 11 ==> #[trigger] r.spec_cell(i, j) == spec_cross_cell(
                    cross,
                    i,
                    j,
                ),
    {
        let mut board = Board::default();
        let mut sides = match cross {
            Some(sides) => sides,
            None => {
                return board;
            },
        };
        let ghost sides0 = sides@;
        let side_n = sides.remove(0);
        let side_e = sides.remove(0);
        let side_s = sides.remove(0);
        let side_w = sides.remove(0);
        proof {
            assert(side_n == sides0[0] && side_e == sides0[1] && side_s == sides0[2] && side_w
                == sides0[3]);
        }

        if let Some(mut ts) = side_n {
            let ghost b0 = board;
            let ghost ts0 = ts@;
            let mut k: usize = 0;
            while k < 5
                invariant
                    board.wf(),
                    k <= 5,
                    ts0.len() == 5,
                    ts@ == ts0.skip(k as int),
                    forall|kk: int|
                        0 <= kk < k ==> #[trigger] board.spec_cell(kk, 5) == ts0[kk],
                    forall|i: int, j: int|
                        0 <= i < 11 && 0 <= j < 11 && !(j == 5 && 0 <= i < k)
                            ==> #[trigger] board.spec_cell(i, j) == b0.spec_cell(i, j),
                    b0.wf(),
                decreases 5 - k,
            {
                let t = ts.remove(0);
                proof {
                    assert(t == ts0[k as int]);
                    assert(ts0.skip(k as int).skip(1) =~= ts0.skip(k + 1));
                }
                let ghost bprev = board;
                board.0[k][5] = t;
                proof {
                    assert(board.spec_cell(k as int, 5) == t);
                    assert forall|i: int, j: int|
                        0 <= i < 11 && 0 <= j < 11 && !(i == k as int && j == 5) implies #[trigger]
                        board.spec_cell(i, j) == bprev.spec_cell(i, j) by {
                        assert(bprev.0@.len() == 11);
                    }
                }
                k = k + 1;
            }
        }
        let ghost b_n = board;

        if let Some(mut ts) = side_e {
            let ghost b0 = board;
            let ghost ts0 = ts@;
            let mut k: usize = 0;
            while k < 5
                invariant
                    board.wf(),
                    k <= 5,
                    ts0.len() == 5,
                    ts@ == ts0.skip(k as int),
                    forall|kk: int|
                        0 <= kk < k ==> #[trigger] board.spec_cell(5, 6 + kk) == ts0[kk],
                    forall|i: int, j: int|
                        0 <= i < 11 && 0 <= j < 11 && !(i == 5 && 6 <= j < 6 + k)
                            ==> #[trigger] board.spec_cell(i, j) == b0.spec_cell(i, j),
                    b0.wf(),
                decreases 5 - k,
            {
                let t = ts.remove(0);
                proof {
                    assert(t == ts0[k as int]);
                    assert(ts0.skip(k as int).skip(1) =~= ts0.skip(k + 1));
                }
                let ghost bprev = board;
                board.0[5][6 + k] = t;
                proof {
                    assert(board.spec_cell(5, 6 + k as int) == t);
                    assert forall|i: int, j: int|
                        0 <= i < 11 && 0 <= j < 11 && !(i == 5 && j == 6 + k as int) implies #[trigger]
                        board.spec_cell(i, j) == bprev.spec_cell(i, j) by {
                        assert(bprev.0@.len() == 11);
                    }
                }
                k = k + 1;
            }
        }
        let ghost b_e = board;

        if let Some(mut ts) = side_s {
            let ghost b0 = board;
            let ghost ts0 = ts@;
            let mut k: usize = 0;
            while k < 5
                invariant
                    board.wf(),
                    k <= 5,
                    ts0.len() == 5,
                    ts@ == ts0.skip(k as int),
                    forall|kk: int|
                        0 <= kk < k ==> #[trigger] board.spec_cell(6 + kk, 5) == ts0[kk],
                    forall|i: int, j: int|
                        0 <= i < 11 && 0 <= j < 11 && !(j == 5 && 6 <= i < 6 + k)
                            ==> #[trigger] board.spec_cell(i, j) == b0.spec_cell(i, j),
                    b0.wf(),
                decreases 5 - k,
            {
                let t = ts.remove(0);
                proof {
                    assert(t == ts0[k as int]);
                    assert(ts0.skip(k as int).skip(1) =~= ts0.skip(k + 1));
                }
                let ghost bprev = board;
                board.0[6 + k][5] = t;
                proof {
                    assert(board.spec_cell(6 + k as int, 5) == t);
                    assert forall|i: int, j: int|
                        0 <= i < 11 && 0 <= j < 11 && !(i == 6 + k as int && j == 5) implies #[trigger]
                        board.spec_cell(i, j) == bprev.spec_cell(i, j) by {
                        assert(bprev.0@.len() == 11);
                    }
                }
                k = k + 1;
            }
        }
        let ghost b_s = board;

        if let Some(mut ts) = side_w {
            let ghost b0 = board;
            let ghost ts0 = ts@;
            let mut k: usize = 0;
            while k < 5
                invariant
                    board.wf(),
                    k <= 5,
                    ts0.len() == 5,
                    ts@ == ts0.skip(k as int),
                    forall|kk: int|
                        0 <= kk < k ==> #[trigger] board.spec_cell(5, kk) == ts0[kk],
                    forall|i: int, j: int|
                        0 <= i < 11 && 0 <= j < 11 && !(i == 5 && 0 <= j < k)
                            ==> #[trigger] board.spec_cell(i, j) == b0.spec_cell(i, j),
                    b0.wf(),
                decreases 5 - k,
            {
                let t = ts.remove(0);
                proof {
                    assert(t == ts0[k as int]);
                    assert(ts0.skip(k as int).skip(1) =~= ts0.skip(k + 1));
                }
                let ghost bprev = board;
                board.0[5][k] = t;
                proof {
                    assert(board.spec_cell(5, k as int) == t);
                    assert forall|i: int, j: int|
                        0 <= i < 11 && 0 <= j < 11 && !(i == 5 && j == k as int) implies #[trigger]
                        board.spec_cell(i, j) == bprev.spec_cell(i, j) by {
                        assert(bprev.0@.len() == 11);
                    }
                }
                k = k + 1;
            }
        }
        proof {
            assert forall|i: int, j: int| 0 <= i < 11 && 0 <= j < 11 implies #[trigger]
                board.spec_cell(i, j) == spec_cross_cell(cross, i, j) by {
                if j == 5 && 0 <= i < 5 {
                    assert(board.spec_cell(i, j) == b_s.spec_cell(i, j));
                    assert(b_s.spec_cell(i, j) == b_e.spec_cell(i, j));
                    assert(b_e.spec_cell(i, j) == b_n.spec_cell(i, j));
                    if sides0[0] is Some {
                        assert(b_n.spec_cell(i, 5) == sides0[0]->Some_0@[i]);
                    } else {
                        assert(b_n.spec_cell(i, 5) is None);
                    }
                    assert(spec_cross_cell(cross, i, j) == spec_side_tile(sides0, 0, i));
                } else if i == 5 && 6 <= j < 11 {
                    assert(board.spec_cell(i, j) == b_s.spec_cell(i, j));
                    assert(b_s.spec_cell(i, j) == b_e.spec_cell(i, j));
                    if sides0[1] is Some {
                        let kk = j - 6;
                        assert(b_e.spec_cell(5, 6 + kk) == sides0[1]->Some_0@[kk]);
                    } else {
                        assert(b_e.spec_cell(5, j) == b_n.spec_cell(5, j));
                        assert(b_n.spec_cell(5, j) is None);
                    }
                    assert(spec_cross_cell(cross, i, j) == spec_side_tile(sides0, 1, j - 6));
                } else if j == 5 && 6 <= i < 11 {
                    assert(board.spec_cell(i, j) == b_s.spec_cell(i, j));
                    if sides0[2] is Some {
                        let kk = i - 6;
                        assert(b_s.spec_cell(6 + kk, 5) == sides0[2]->Some_0@[kk]);
                    } else {
                        assert(b_s.spec_cell(i, 5) == b_e.spec_cell(i, 5));
                        assert(b_e.spec_cell(i, 5) == b_n.spec_cell(i, 5));
                        assert(b_n.spec_cell(i, 5) is None);
                    }
                    assert(spec_cross_cell(cross, i, j) == spec_side_tile(sides0, 2, i - 6));
                } else if i == 5 && 0 <= j < 5 {
                    if sides0[3] is Some {
                        assert(board.spec_cell(5, j) == sides0[3]->Some_0@[j]);
                    } else {
                        assert(board.spec_cell(5, j) == b_s.spec_cell(5, j));
                        assert(b_s.spec_cell(5, j) == b_e.spec_cell(5, j));
                        assert(b_e.spec_cell(5, j) == b_n.spec_cell(5, j));
                        assert(b_n.spec_cell(5, j) is None);
                    }
                    assert(spec_cross_cell(cross, i, j) == spec_side_tile(sides0, 3, j));
                } else {
                    assert(board.spec_cell(i, j) == b_s.spec_cell(i, j));
                    assert(b_s.spec_cell(i, j) == b_e.spec_cell(i, j));
                    assert(b_e.spec_cell(i, j) == b_n.spec_cell(i, j));
                    assert(b_n.spec_cell(i, j) is None);
                }
            }
        }
        board
    }
}

impl Cross for Board {

}

} // verus!
