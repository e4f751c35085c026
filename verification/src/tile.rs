use vstd::prelude::*;
use crate::config::TileConfig;
use crate::direction::CardinalDirection;
use crate::flags::{spec_layout_rot_ccw, spec_layout_rot_cw, OasisLayoutFlags};
use crate::treasure::{
    lemma_parse_ok, spec_parse_matches, spec_parse_ok, TreasureKind, TreasureKindParseError,
};

verus! {

/// The value of one tile: whether it is one of the five fixed cross tiles,
/// its packed oasis connection layout, and the treasure on each of its four
/// sides, indexed by direction.
#[derive(Debug, Clone, Copy, PartialEq, Eq, Structural)]
pub struct TileData {
    pub is_cross: bool,
    pub oasis_layout: OasisLayoutFlags,
    pub treasure_n: TreasureKind,
    pub treasure_e: TreasureKind,
    pub treasure_s: TreasureKind,
    pub treasure_w: TreasureKind,
}

impl Default for TileData {
    /// A blank tile: not a cross tile, no oasis connection, no treasure.
    fn default() -> (r: Self)
        ensures
            r == TileData::spec_default(),
    {
        TileData {
            is_cross: false,
            oasis_layout: OasisLayoutFlags { bits: 0 },
            treasure_n: TreasureKind::NoTreasure,
            treasure_e: TreasureKind::NoTreasure,
            treasure_s: TreasureKind::NoTreasure,
            treasure_w: TreasureKind::NoTreasure,
        }
    }
}

impl TileData {
    pub open spec fn spec_default() -> TileData {
        TileData {
            is_cross: false,
            oasis_layout: OasisLayoutFlags { bits: 0 },
            treasure_n: TreasureKind::NoTreasure,
            treasure_e: TreasureKind::NoTreasure,
            treasure_s: TreasureKind::NoTreasure,
            treasure_w: TreasureKind::NoTreasure,
        }
    }

    /// The treasure on the given side of the tile.
    pub open spec fn spec_treasure_at(&self, d: CardinalDirection) -> TreasureKind {
        match d {
            CardinalDirection::N => self.treasure_n,
            CardinalDirection::E => self.treasure_e,
            CardinalDirection::S => self.treasure_s,
            CardinalDirection::W => self.treasure_w,
        }
    }

    #[verifier::when_used_as_spec(spec_treasure_at)]
    pub fn treasure_at(&self, d: CardinalDirection) -> (r: TreasureKind)
        ensures
            r == self.spec_treasure_at(d),
    {
        match d {
            CardinalDirection::N => self.treasure_n,
            CardinalDirection::E => self.treasure_e,
            CardinalDirection::S => self.treasure_s,
            CardinalDirection::W => self.treasure_w,
        }
    }

    /// The tile after one clockwise quarter turn: every oasis slot nibble
    /// rotates one step and each side's treasure moves to the next side of
    /// the [N, E, S, W] cycle, so treasure and connections stay aligned.
    pub open spec fn spec_rotate_cw(t: TileData) -> TileData {
        TileData {
            is_cross: t.is_cross,
            oasis_layout: OasisLayoutFlags { bits: spec_layout_rot_cw(t.oasis_layout.bits) },
            treasure_n: t.treasure_w,
            treasure_e: t.treasure_n,
            treasure_s: t.treasure_e,
            treasure_w: t.treasure_s,
        }
    }

    /// The tile after one counter-clockwise quarter turn.
    pub open spec fn spec_rotate_ccw(t: TileData) -> TileData {
        TileData {
            is_cross: t.is_cross,
            oasis_layout: OasisLayoutFlags { bits: spec_layout_rot_ccw(t.oasis_layout.bits) },
            treasure_n: t.treasure_e,
            treasure_e: t.treasure_s,
            treasure_s: t.treasure_w,
            treasure_w: t.treasure_n,
        }
    }

    /// Turns the tile a quarter turn clockwise in place.
    pub fn rotate_cw(&mut self)
        ensures
            *final(self) == TileData::spec_rotate_cw(*old(self)),
    {
        self.oasis_layout = self.oasis_layout.rotate_left(1);
        let tn = self.treasure_n;
        let te = self.treasure_e;
        let ts = self.treasure_s;
        let tw = self.treasure_w;
        self.treasure_n = tw;
        self.treasure_e = tn;
        self.treasure_s = te;
        self.treasure_w = ts;
    }

    /// Turns the tile a quarter turn counter-clockwise in place.
    pub fn rotate_ccw(&mut self)
        ensures
            *final(self) == TileData::spec_rotate_ccw(*old(self)),
    {
        self.oasis_layout = self.oasis_layout.rotate_right(1);
        let tn = self.treasure_n;
        let te = self.treasure_e;
        let ts = self.treasure_s;
        let tw = self.treasure_w;
        self.treasure_n = te;
        self.treasure_e = ts;
        self.treasure_s = tw;
        self.treasure_w = tn;
    }
}

/// The two quarter turns of a tile are mutual inverses: a clockwise turn
/// followed by a counter-clockwise one (or the other way round) restores
/// the tile, and four clockwise turns restore it as well.
pub proof fn lemma_tile_rotation_round_trip(t: TileData)
    ensures
        TileData::spec_rotate_cw(TileData::spec_rotate_ccw(t)) == t,
        TileData::spec_rotate_ccw(TileData::spec_rotate_cw(t)) == t,
        TileData::spec_rotate_cw(
            TileData::spec_rotate_cw(TileData::spec_rotate_cw(TileData::spec_rotate_cw(t))),
        ) == t,
{
    crate::flags::lemma_layout_rot_inverse(t.oasis_layout.bits);
    crate::flags::lemma_layout_rot_full_turn(t.oasis_layout.bits);
}

/// The treasure string a configuration field stands for: the field's own
/// text, or `none` where the field is absent.
pub open spec fn spec_treasure_src(o: Option<String>) -> Seq<char> {
    match o {
        Option::Some(s) => s@,
        Option::None => "none"@,
    }
}

/// The direction-set nibble the four per-direction booleans of a tile
/// record describe; an absent boolean counts as false.
pub open spec fn spec_bool_nibble(tc: TileConfig) -> u8 {
    (if tc.n == Option::Some(true) {
        0x1u8
    } else {
        0u8
    }) | (if tc.e == Option::Some(true) {
        0x2u8
    } else {
        0u8
    }) | (if tc.s == Option::Some(true) {
        0x4u8
    } else {
        0u8
    }) | (if tc.w == Option::Some(true) {
        0x8u8
    } else {
        0u8
    })
}

/// The packed oasis layout a tile record describes: its parsed `oasis`
/// list where it has one, else slot 0 built from the four booleans.
pub open spec fn spec_config_oasis_bits(tc: TileConfig) -> u16 {
    match tc.oasis {
        Option::Some(f) => f.bits,
        Option::None => spec_bool_nibble(tc) as u16,
    }
}

/// Whether every treasure field of a tile record parses.
pub open spec fn spec_tile_data_ok(tc: TileConfig) -> bool {
    &&& spec_parse_ok(spec_treasure_src(tc.treasure_n))
    &&& spec_parse_ok(spec_treasure_src(tc.treasure_e))
    &&& spec_parse_ok(spec_treasure_src(tc.treasure_s))
    &&& spec_parse_ok(spec_treasure_src(tc.treasure_w))
}

/// What building a tile from a record returns: on success, the cross
/// flag, the packed oasis layout, and the four parsed treasures; on
/// failure, the parse error of the first failing treasure field, in
/// [N, E, S, W] order.
pub open spec fn spec_tile_data_matches(
    tc: TileConfig,
    r: Result<TileData, TreasureKindParseError>,
) -> bool {
    let sn = spec_treasure_src(tc.treasure_n);
    let se = spec_treasure_src(tc.treasure_e);
    let ss = spec_treasure_src(tc.treasure_s);
    let sw = spec_treasure_src(tc.treasure_w);
    match r {
        Ok(t) => {
            &&& t.is_cross == (tc.is_cross == Option::Some(true))
            &&& t.oasis_layout.bits == spec_config_oasis_bits(tc)
            &&& spec_parse_matches(sn, Ok(t.treasure_n))
            &&& spec_parse_matches(se, Ok(t.treasure_e))
            &&& spec_parse_matches(ss, Ok(t.treasure_s))
            &&& spec_parse_matches(sw, Ok(t.treasure_w))
        },
        Err(e) => {
            ||| spec_parse_matches(sn, Err(e))
            ||| (spec_parse_ok(sn) && spec_parse_matches(se, Err(e)))
            ||| (spec_parse_ok(sn) && spec_parse_ok(se) && spec_parse_matches(ss, Err(e)))
            ||| (spec_parse_ok(sn) && spec_parse_ok(se) && spec_parse_ok(ss)
                && spec_parse_matches(sw, Err(e)))
        },
    }
}

/// Building a tile from a record succeeds exactly when every treasure
/// field of the record parses.
pub proof fn lemma_tile_data_ok(tc: TileConfig, r: Result<TileData, TreasureKindParseError>)
    requires
        spec_tile_data_matches(tc, r),
    ensures
        r is Ok <==> spec_tile_data_ok(tc),
{
    let sn = spec_treasure_src(tc.treasure_n);
    let se = spec_treasure_src(tc.treasure_e);
    let ss = spec_treasure_src(tc.treasure_s);
    let sw = spec_treasure_src(tc.treasure_w);
    match r {
        Ok(t) => {
            lemma_parse_ok(sn, Ok(t.treasure_n));
            lemma_parse_ok(se, Ok(t.treasure_e));
            lemma_parse_ok(ss, Ok(t.treasure_s));
            lemma_parse_ok(sw, Ok(t.treasure_w));
        },
        Err(e) => {
            if spec_parse_matches(sn, Err(e)) {
                lemma_parse_ok(sn, Err(e));
            }
            if spec_parse_matches(se, Err(e)) {
                lemma_parse_ok(se, Err(e));
            }
            if spec_parse_matches(ss, Err(e)) {
                lemma_parse_ok(ss, Err(e));
            }
            if spec_parse_matches(sw, Err(e)) {
                lemma_parse_ok(sw, Err(e));
            }
        },
    }
}

impl TileData {
    /// Builds a tile from one configuration record: the cross flag and
    /// oasis layout are taken over (the four booleans fill slot 0 when no
    /// oasis list is given), absent treasure fields default to none, and
    /// the first failing treasure field's parse error surfaces.
    pub fn from_config(value: &TileConfig) -> (r: Result<TileData, TreasureKindParseError>)
        ensures
            spec_tile_data_matches(*value, r),
    {
        let tn = match TreasureKind::parse(
            match &value.treasure_n {
                Some(s) => s.as_str(),
                None => "none",
            },
        ) {
            Ok(k) => k,
            Err(e) => {
                return Err(e);
            },
        };
        proof {
            lemma_parse_ok(spec_treasure_src(value.treasure_n), Ok(tn));
        }
        let te = match TreasureKind::parse(
            match &value.treasure_e {
                Some(s) => s.as_str(),
                None => "none",
            },
        ) {
            Ok(k) => k,
            Err(e) => {
                return Err(e);
            },
        };
        proof {
            lemma_parse_ok(spec_treasure_src(value.treasure_e), Ok(te));
        }
        let ts = match TreasureKind::parse(
            match &value.treasure_s {
                Some(s) => s.as_str(),
                None => "none",
            },
        ) {
            Ok(k) => k,
            Err(e) => {
                return Err(e);
            },
        };
        proof {
            lemma_parse_ok(spec_treasure_src(value.treasure_s), Ok(ts));
        }
        let tw = match TreasureKind::parse(
            match &value.treasure_w {
                Some(s) => s.as_str(),
                None => "none",
            },
        ) {
            Ok(k) => k,
            Err(e) => {
                return Err(e);
            },
        };
        let is_cross = match value.is_cross {
            Some(b) => b,
            None => false,
        };
        let bits: u16 = match value.oasis {
            Some(f) => f.bits,
            None => {
                let nb: u8 = (if matches!(value.n, Some(true)) {
                    0x1u8
                } else {
                    0u8
                }) | (if matches!(value.e, Some(true)) {
                    0x2u8
                } else {
                    0u8
                }) | (if matches!(value.s, Some(true)) {
                    0x4u8
                } else {
                    0u8
                }) | (if matches!(value.w, Some(true)) {
                    0x8u8
                } else {
                    0u8
                });
                nb as u16
            },
        };
        Ok(
            TileData {
                is_cross,
                oasis_layout: OasisLayoutFlags { bits },
                treasure_n: tn,
                treasure_e: te,
                treasure_s: ts,
                treasure_w: tw,
            },
        )
    }
}

} // verus!
