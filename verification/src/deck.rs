use vstd::prelude::*;
use crate::config::DeckConfig;
use crate::registry::BoardComponent;
use crate::tile::{lemma_tile_data_ok, spec_tile_data_matches, spec_tile_data_ok, TileData};
use crate::treasure::TreasureKindParseError;

verus! {

/// A tile drawn from a deck together with how many tiles stay behind.
#[derive(Debug, Clone, Copy, PartialEq, Eq, Structural)]
pub struct NextTileDataRemaining(pub TileData, pub u8);

/// A source of tiles that hands them out one at a time until it runs dry.
pub trait NextTileData {
    fn get_next_tile_data(&mut self) -> Option<NextTileDataRemaining>;
}

/// An ordered deck of 17 tiles with a draw cursor; the cursor only ever
/// moves forward, and drawing past the end yields nothing.
#[derive(Debug, Clone)]
pub struct TileDeckComponent {
    pub index: u8,
    pub tiles: Vec<TileData>,
}

/// What one draw does to a deck: below 17 the cursor's tile comes out and
/// the cursor advances, with 16 - cursor tiles remaining; at 17 the deck
/// is exhausted and stays as it is.
pub open spec fn spec_draw(d: TileDeckComponent) -> (TileDeckComponent, Option<
    NextTileDataRemaining,
>) {
    if d.index < 17 {
        (
            TileDeckComponent { index: (d.index + 1) as u8, tiles: d.tiles },
            Option::Some(
                NextTileDataRemaining(d.tiles@[d.index as int], (16 - d.index) as u8),
            ),
        )
    } else {
        (d, Option::None)
    }
}

impl TileDeckComponent {
    /// A deck is well formed when it holds exactly 17 tiles and its cursor
    /// has not moved past the end.
    pub open spec fn wf(&self) -> bool {
        self.tiles@.len() == 17 && self.index <= 17
    }

    /// A fresh deck over the given 17 tiles, cursor at the start.
    pub fn new(tiles: Vec<TileData>) -> (r: TileDeckComponent)
        requires
            tiles@.len() == 17,
        ensures
            r.wf(),
            r.index == 0,
            r.tiles@ == tiles@,
    {
        TileDeckComponent { index: 0, tiles }
    }

    /// Draws the tile under the cursor and advances it, reporting how many
    /// tiles remain; an exhausted deck yields nothing and stays unchanged.
    pub fn draw_next(&mut self) -> (r: Option<NextTileDataRemaining>)
        requires
            old(self).wf(),
        ensures
            final(self).wf(),
            final(self).index == spec_draw(*old(self)).0.index,
            final(self).tiles@ == spec_draw(*old(self)).0.tiles@,
            r == spec_draw(*old(self)).1,
            final(self).index >= old(self).index,
    {
        if self.index < 17 {
            let tile = self.tiles[self.index as usize];
            self.index = self.index + 1;
            Some(NextTileDataRemaining(tile, 17 - self.index))
        } else {
            None
        }
    }
}

impl NextTileData for TileDeckComponent {
    fn get_next_tile_data(&mut self) -> Option<NextTileDataRemaining> {
        if self.tiles.len() == 17 && self.index <= 17 {
            self.draw_next()
        } else {
            None
        }
    }
}

/// Deck exhaustion: a well-formed deck yields a tile exactly while its
/// cursor is short of 17, the count of remaining tiles is 16 minus the
/// cursor and falls by one on the following draw, and once the cursor
/// reaches 17 every further draw yields nothing and moves nothing.
pub proof fn lemma_deck_exhaustion(d: TileDeckComponent)
    requires
        d.wf(),
    ensures
        spec_draw(d).1 is Some <==> d.index < 17,
        d.index < 17 ==> (spec_draw(d).1 matches Some(t) && t.1 == 16 - d.index && t.0
            == d.tiles@[d.index as int]),
        d.index < 17 ==> spec_draw(d).0.index == d.index + 1,
        d.index < 16 ==> (spec_draw(spec_draw(d).0).1 matches Some(t2) && t2.1 + 1 == 16
            - d.index),
        d.index == 17 ==> spec_draw(d).1 is None && spec_draw(d).0 == d,
{
}

impl TileDeckComponent {
    /// Seeds a fresh deck from one configured deck of 17 records; the
    /// first record whose treasure fields do not parse fails the whole
    /// deck with that field's error.
    pub fn from_deck_config(cfg: &DeckConfig) -> (r: Result<
        TileDeckComponent,
        TreasureKindParseError,
    >)
        requires
            cfg.0@.len() == 17,
        ensures
            match r {
                Ok(d) => {
                    &&& d.wf()
                    &&& d.index == 0
                    &&& d.tiles@.len() == 17
                    &&& forall|i: int|
                        0 <= i < 17 ==> spec_tile_data_matches(
                            #[trigger] cfg.0@[i],
                            Ok(d.tiles@[i]),
                        )
                },
                Err(e) => exists|i: int|
                    0 <= i < 17 && (forall|k: int|
                        0 <= k < i ==> spec_tile_data_ok(#[trigger] cfg.0@[k]))
                        && !spec_tile_data_ok(#[trigger] cfg.0@[i]) && spec_tile_data_matches(
                        cfg.0@[i],
                        Err(e),
                    ),
            },
    {
        let mut tiles: Vec<TileData> = Vec::new();
        let mut i: usize = 0;
        while i < cfg.0.len()
            invariant
                cfg.0@.len() == 17,
                i <= 17,
                tiles@.len() == i,
                forall|k: int|
                    0 <= k < i ==> spec_tile_data_matches(#[trigger] cfg.0@[k], Ok(tiles@[k])),
                forall|k: int| 0 <= k < i ==> spec_tile_data_ok(#[trigger] cfg.0@[k]),
            decreases 17 - i,
        {
            match TileData::from_config(&cfg.0[i]) {
                Ok(t) => {
                    proof {
                        lemma_tile_data_ok(cfg.0@[i as int], Ok(t));
                    }
                    tiles.push(t);
                },
                Err(e) => {
                    proof {
                        lemma_tile_data_ok(cfg.0@[i as int], Err(e));
                        assert((i as int) < 17 && (forall|k: int|
                            0 <= k < i as int ==> spec_tile_data_ok(#[trigger] cfg.0@[k]))
                            && !spec_tile_data_ok(cfg.0@[i as int]) && spec_tile_data_matches(
                            cfg.0@[i as int],
                            Err(e),
                        ));
                    }
                    return Err(e);
                },
            }
            i = i + 1;
        }
        Ok(TileDeckComponent { index: 0, tiles })
    }
}

/// One press on a deck: nothing happens unless the deck is the active
/// one; the active deck hands out its next tile; an exhausted active deck
/// hands out nothing and passes the active-deck pointer on instead.
pub fn draw_from_deck(
    board: &mut BoardComponent,
    deck: &mut TileDeckComponent,
    deck_index: u8,
) -> (r: Option<NextTileDataRemaining>)
    requires
        old(deck).wf(),
    ensures
        final(deck).wf(),
        old(board).spec_active_deck() != deck_index ==> r is None && *final(deck) == *old(deck)
            && final(board).spec_active_deck() == old(board).spec_active_deck(),
        old(board).spec_active_deck() == deck_index && old(deck).index < 17 ==> r == spec_draw(
            *old(deck),
        ).1 && final(deck).index == old(deck).index + 1 && final(board).spec_active_deck()
            == old(board).spec_active_deck(),
        old(board).spec_active_deck() == deck_index && old(deck).index == 17 ==> r is None
            && final(deck).index == old(deck).index && final(deck).tiles@ == old(deck).tiles@
            && final(board).spec_active_deck() == if deck_index
            < 5 {
            deck_index + 1
        } else {
            deck_index as int
        },
        old(board).wf() ==> final(board).wf(),
        final(board).spec_coords() == old(board).spec_coords(),
        forall|x: int, y: int| #[trigger]
            final(board).spec_id_at(x, y) == old(board).spec_id_at(x, y),
{
    if board.active_tile_deck() != deck_index {
        return None;
    }
    let drawn = deck.draw_next();
    if drawn.is_none() {
        board.advance_active_deck();
    }
    drawn
}

} // verus!
