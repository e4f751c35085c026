use sahara_tiles::deck::{draw_from_deck, NextTileData, TileDeckComponent};
use sahara_tiles::registry::BoardComponent;
use sahara_tiles::flags::OasisLayoutFlags;
use sahara_tiles::tile::TileData;
use sahara_tiles::treasure::TreasureKind;

fn seeded_deck() -> TileDeckComponent {
    let mut tiles = Vec::new();
    for i in 0..17u16 {
        tiles.push(TileData {
            is_cross: false,
            oasis_layout: OasisLayoutFlags { bits: i },
            treasure_n: TreasureKind::NoTreasure,
            treasure_e: TreasureKind::NoTreasure,
            treasure_s: TreasureKind::NoTreasure,
            treasure_w: TreasureKind::NoTreasure,
        });
    }
    TileDeckComponent::new(tiles)
}

#[test]
fn seventeen_draws_then_nothing() {
    let mut deck = seeded_deck();
    let mut expected_remaining: i32 = 16;
    for i in 0..17u16 {
        let drawn = deck.draw_next().expect("a seeded deck yields 17 tiles");
        assert_eq!(drawn.0.oasis_layout, OasisLayoutFlags { bits: i });
        assert_eq!(drawn.1 as i32, expected_remaining);
        expected_remaining -= 1;
    }
    assert!(deck.draw_next().is_none());
    assert!(deck.draw_next().is_none());
}

#[test]
fn remaining_count_falls_from_sixteen_to_zero() {
    let mut deck = seeded_deck();
    let mut last: Option<u8> = None;
    while let Some(drawn) = deck.draw_next() {
        if let Some(prev) = last {
            assert_eq!(drawn.1 + 1, prev);
        } else {
            assert_eq!(drawn.1, 16);
        }
        last = Some(drawn.1);
    }
    assert_eq!(last, Some(0));
}

#[test]
fn the_trait_draw_matches_the_inherent_draw() {
    let mut a = seeded_deck();
    let mut b = seeded_deck();
    loop {
        let from_trait = a.get_next_tile_data();
        let from_inherent = b.draw_next();
        assert_eq!(from_trait, from_inherent);
        if from_inherent.is_none() {
            break;
        }
    }
}

#[test]
fn only_the_active_deck_hands_out_tiles() {
    let mut board = BoardComponent::new();
    let mut deck_two = seeded_deck();
    assert!(draw_from_deck(&mut board, &mut deck_two, 1).is_none());
    assert_eq!(board.active_tile_deck(), 0);

    let mut deck_one = seeded_deck();
    let drawn = draw_from_deck(&mut board, &mut deck_one, 0);
    assert!(drawn.is_some());
    assert_eq!(board.active_tile_deck(), 0);

    while deck_one.draw_next().is_some() {}
    assert!(draw_from_deck(&mut board, &mut deck_one, 0).is_none());
    assert_eq!(board.active_tile_deck(), 1);
}
