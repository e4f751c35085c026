use vstd::prelude::*;
use crate::direction::CardinalDirection;
use crate::flags::{spec_combine, OasisLayoutFlags};
use crate::text::str_eq;

verus! {

/// The configuration files the game knows of.
#[derive(Debug, Clone, Hash, PartialEq, Eq, Structural)]
pub enum GameConfig {
    Tileset,
}

/// A plain configuration value, as handed over by whatever read and
/// decoded the configuration file: a boolean, a piece of text, a list, a
/// table of key-value entries, or some other value kind the tileset schema
/// does not use.
#[derive(Debug)]
pub enum ConfigValue {
    Boolean(bool),
    Text(String),
    List(Vec<ConfigValue>),
    Table(Vec<(String, ConfigValue)>),
    Other,
}

/// Why a tileset configuration was rejected.
#[derive(Debug, Clone, Copy, PartialEq, Eq, Structural)]
pub enum ConfigParseError {
    /// A tile record was not a table.
    NotATable,
    /// A collection of tile records was not a list.
    NotAList,
    /// An `oasis` field was not a list of valid direction labels.
    InvalidOasisList,
    /// The configuration has no `cross` table.
    MissingCrossConfig,
    /// The cross table has no valid center entry.
    MissingCrossCenter,
    /// The cross table misses the arm on the carried direction, or that
    /// arm is not a valid list of exactly five tile records.
    MissingCrossSide(CardinalDirection),
    /// A cross side was asked for under an unknown name.
    InvalidCrossSide,
    /// A cross arm list did not hold exactly five tile records.
    WrongCrossSideLength,
    /// A deck did not hold exactly 17 tile records.
    WrongDeckLength,
    /// The configuration has no `decks` list.
    MissingDecks,
    /// An entry of the `decks` list holds no `deck` list.
    MissingDeckList,
    /// The `decks` list did not hold exactly five decks.
    WrongDeckCount,
}

/// The value stored under the first entry with the given key, if any.
pub open spec fn spec_table_get(
    entries: Seq<(String, ConfigValue)>,
    key: Seq<char>,
) -> Option<ConfigValue>
    decreases entries.len(),
{
    if entries.len() == 0 {
        Option::None
    } else if entries[0].0@ == key {
        Option::Some(entries[0].1)
    } else {
        spec_table_get(entries.drop_first(), key)
    }
}

/// A key that matches no entry is not in the table.
proof fn lemma_table_get_none(entries: Seq<(String, ConfigValue)>, key: Seq<char>)
    requires
        forall|k: int| 0 <= k < entries.len() ==> #[trigger] entries[k].0@ != key,
    ensures
        spec_table_get(entries, key) is None,
    decreases entries.len(),
{
    if entries.len() > 0 {
        lemma_table_get_none(entries.drop_first(), key);
    }
}

/// The first entry whose key matches is the one the lookup finds.
proof fn lemma_table_get_at(entries: Seq<(String, ConfigValue)>, key: Seq<char>, i: int)
    requires
        0 <= i < entries.len(),
        entries[i].0@ == key,
        forall|k: int| 0 <= k < i ==> #[trigger] entries[k].0@ != key,
    ensures
        spec_table_get(entries, key) == Option::Some(entries[i].1),
    decreases entries.len(),
{
    if i > 0 {
        lemma_table_get_at(entries.drop_first(), key, i - 1);
    }
}

/// Finds the first entry of a table with the given key.
pub fn table_get<'a>(entries: &'a Vec<(String, ConfigValue)>, key: &str) -> (r: Option<
    &'a ConfigValue,
>)
    ensures
        match r {
            Option::Some(v) => spec_table_get(entries@, key@) == Option::Some(*v),
            Option::None => spec_table_get(entries@, key@) is None,
        },
{
    let mut i: usize = 0;
    while i < entries.len()
        invariant
            i <= entries@.len(),
            forall|k: int| 0 <= k < i ==> #[trigger] entries@[k].0@ != key@,
        decreases entries@.len() - i,
    {
        if str_eq(entries[i].0.as_str(), key) {
            proof {
                lemma_table_get_at(entries@, key@, i as int);
            }
            return Some(&entries[i].1);
        }
        i = i + 1;
    }
    proof {
        lemma_table_get_none(entries@, key@);
    }
    None
}

/// A boolean read from a configuration value.
pub struct ConfigBool(pub bool);

/// A piece of text read from a configuration value.
pub struct ConfigString(pub String);

/// The boolean stored under a key, or nothing when the key is absent or
/// its value is no boolean.
pub open spec fn spec_opt_bool(entries: Seq<(String, ConfigValue)>, key: Seq<char>) -> Option<
    bool,
> {
    match spec_table_get(entries, key) {
        Option::Some(ConfigValue::Boolean(b)) => Option::Some(b),
        _ => Option::None,
    }
}

/// The text stored under a key, or nothing when the key is absent or its
/// value is no text.
pub open spec fn spec_opt_text(entries: Seq<(String, ConfigValue)>, key: Seq<char>) -> Option<
    Seq<char>,
> {
    match spec_table_get(entries, key) {
        Option::Some(ConfigValue::Text(s)) => Option::Some(s@),
        _ => Option::None,
    }
}

/// An optional owned string agrees with an optional text value.
pub open spec fn spec_opt_text_eq(a: Option<String>, b: Option<Seq<char>>) -> bool {
    &&& a is Some <==> b is Some
    &&& a matches Some(s) ==> b matches Some(t) && s@ == t
}

impl ConfigBool {
    /// Reads the value as a boolean.
    pub fn try_from_value(value: &ConfigValue) -> (r: Option<ConfigBool>)
        ensures
            match value {
                ConfigValue::Boolean(b) => r matches Some(cb) && cb.0 == b,
                _ => r is None,
            },
    {
        match value {
            ConfigValue::Boolean(b) => Some(ConfigBool(*b)),
            _ => None,
        }
    }

    /// The boolean stored under the key of a table, if present and boolean.
    pub fn from_key_in_table_as_bool(key: &str, table: &Vec<(String, ConfigValue)>) -> (r: Option<
        bool,
    >)
        ensures
            r == spec_opt_bool(table@, key@),
    {
        match table_get(table, key) {
            Some(v) => match ConfigBool::try_from_value(v) {
                Some(cb) => Some(cb.0),
                None => None,
            },
            None => None,
        }
    }
}

impl ConfigString {
    /// Reads the value as text.
    pub fn try_from_value(value: &ConfigValue) -> (r: Option<ConfigString>)
        ensures
            match value {
                ConfigValue::Text(s) => r matches Some(cs) && cs.0@ == s@,
                _ => r is None,
            },
    {
        match value {
            ConfigValue::Text(s) => Some(ConfigString(s.clone())),
            _ => None,
        }
    }

    /// The text stored under the key of a table, if present and text.
    pub fn from_key_in_table_as_string(
        key: &str,
        table: &Vec<(String, ConfigValue)>,
    ) -> (r: Option<String>)
        ensures
            spec_opt_text_eq(r, spec_opt_text(table@, key@)),
    {
        match table_get(table, key) {
            Some(v) => match ConfigString::try_from_value(v) {
                Some(cs) => Some(cs.0),
                None => None,
            },
            None => None,
        }
    }
}

/// Reads a direction label such as `N` or `E | S`: direction names
/// separated by `|`, with spaces allowed around them. `acc` holds the bits
/// gathered so far and `need_dir` says whether a direction name is still
/// owed (at the start and after each separator).
pub open spec fn spec_label_scan(s: Seq<char>, acc: u8, need_dir: bool) -> Option<u8>
    decreases s.len(),
{
    if s.len() == 0 {
        if need_dir {
            Option::None
        } else {
            Option::Some(acc)
        }
    } else {
        let c = s[0];
        let rest = s.drop_first();
        if c == ' ' {
            spec_label_scan(rest, acc, need_dir)
        } else if c == '|' {
            if need_dir {
                Option::None
            } else {
                spec_label_scan(rest, acc, true)
            }
        } else if !need_dir {
            Option::None
        } else if c == 'N' {
            spec_label_scan(rest, acc | 0x1, false)
        } else if c == 'E' {
            spec_label_scan(rest, acc | 0x2, false)
        } else if c == 'S' {
            spec_label_scan(rest, acc | 0x4, false)
        } else if c == 'W' {
            spec_label_scan(rest, acc | 0x8, false)
        } else {
            Option::None
        }
    }
}

/// The direction set a whole label names, if it is well formed.
pub open spec fn spec_label_flags(s: Seq<char>) -> Option<u8> {
    spec_label_scan(s, 0, true)
}

/// Parses a direction label into the 4 bits of a direction set.
pub fn label_flags(s: &str) -> (r: Option<u8>)
    ensures
        r == spec_label_flags(s@),
{
    let n = s.unicode_len();
    let mut acc: u8 = 0;
    let mut need_dir: bool = true;
    let mut i: usize = 0;
    proof {
        assert(s@.skip(0) =~= s@);
    }
    while i < n
        invariant
            i <= n,
            s@.len() == n,
            spec_label_flags(s@) == spec_label_scan(s@.skip(i as int), acc, need_dir),
        decreases n - i,
    {
        let c = s.get_char(i);
        proof {
            assert(s@.skip(i as int)[0] == s@[i as int]);
            assert(s@.skip(i as int).drop_first() =~= s@.skip(i + 1));
        }
        if c == ' ' {
        } else if c == '|' {
            if need_dir {
                return None;
            }
            need_dir = true;
        } else if !need_dir {
            return None;
        } else if c == 'N' {
            acc = acc | 0x1;
            need_dir = false;
        } else if c == 'E' {
            acc = acc | 0x2;
            need_dir = false;
        } else if c == 'S' {
            acc = acc | 0x4;
            need_dir = false;
        } else if c == 'W' {
            acc = acc | 0x8;
            need_dir = false;
        } else {
            return None;
        }
        i = i + 1;
    }
    proof {
        assert(s@.skip(n as int) =~= Seq::<char>::empty());
    }
    if need_dir {
        None
    } else {
        Some(acc)
    }
}

/// The direction set of oasis slot `i` of an `oasis` list: the label of
/// the i-th element, or the empty set for slots past the end of the list.
pub open spec fn spec_slot_label(items: Seq<ConfigValue>, i: int) -> Option<u8> {
    if 0 <= i < items.len() {
        match items[i] {
            ConfigValue::Text(s) => spec_label_flags(s@),
            _ => Option::None,
        }
    } else {
        Option::Some(0u8)
    }
}

/// The packed oasis layout an `oasis` list describes: at most four
/// elements, each a well-formed direction label, one slot nibble each.
pub open spec fn spec_oasis_flags(items: Seq<ConfigValue>) -> Option<u16> {
    if items.len() > 4 {
        Option::None
    } else {
        match (
            spec_slot_label(items, 0),
            spec_slot_label(items, 1),
            spec_slot_label(items, 2),
            spec_slot_label(items, 3),
        ) {
            (
                Option::Some(b0),
                Option::Some(b1),
                Option::Some(b2),
                Option::Some(b3),
            ) => Option::Some(spec_combine(b0, b1, b2, b3)),
            _ => Option::None,
        }
    }
}

/// The label bits of one slot of an `oasis` list.
fn slot_label(items: &Vec<ConfigValue>, i: usize) -> (r: Option<u8>)
    ensures
        r == spec_slot_label(items@, i as int),
{
    if i < items.len() {
        match &items[i] {
            ConfigValue::Text(s) => label_flags(s.as_str()),
            _ => None,
        }
    } else {
        Some(0)
    }
}

/// Packs a whole `oasis` list into an oasis layout.
fn oasis_from_items(items: &Vec<ConfigValue>) -> (r: Option<OasisLayoutFlags>)
    ensures
        match r {
            Some(f) => spec_oasis_flags(items@) == Option::Some(f.bits),
            None => spec_oasis_flags(items@) is None,
        },
{
    if items.len() > 4 {
        return None;
    }
    let b0 = match slot_label(items, 0) {
        Some(b) => b,
        None => {
            return None;
        },
    };
    let b1 = match slot_label(items, 1) {
        Some(b) => b,
        None => {
            return None;
        },
    };
    let b2 = match slot_label(items, 2) {
        Some(b) => b,
        None => {
            return None;
        },
    };
    let b3 = match slot_label(items, 3) {
        Some(b) => b,
        None => {
            return None;
        },
    };
    Some(
        OasisLayoutFlags {
            bits: ((b0 & 0xF) as u16) | (((b1 & 0xF) as u16) << 4) | (((b2 & 0xF) as u16) << 8)
                | (((b3 & 0xF) as u16) << 12),
        },
    )
}

/// One tile record of the configuration: whether it belongs to the cross,
/// whether it shows the desert icon, four per-direction connection
/// booleans, an optional parsed oasis layout, and four raw treasure
/// strings. Absent fields stay absent rather than defaulted.
#[derive(Debug, Clone, PartialEq)]
pub struct TileConfig {
    pub is_cross: Option<bool>,
    pub is_desert: Option<bool>,
    pub n: Option<bool>,
    pub e: Option<bool>,
    pub s: Option<bool>,
    pub w: Option<bool>,
    pub oasis: Option<OasisLayoutFlags>,
    pub treasure_n: Option<String>,
    pub treasure_e: Option<String>,
    pub treasure_s: Option<String>,
    pub treasure_w: Option<String>,
}

/// What the `oasis` key of a tile record means: absent is fine and means
/// no layout; a list of valid labels is fine and gives the packed bits;
/// anything else is invalid (the outer `None`).
pub open spec fn spec_tile_oasis(entries: Seq<(String, ConfigValue)>) -> Option<Option<u16>> {
    match spec_table_get(entries, "oasis"@) {
        Option::None => Option::Some(Option::None),
        Option::Some(ConfigValue::List(items)) => match spec_oasis_flags(items@) {
            Option::Some(b) => Option::Some(Option::Some(b)),
            Option::None => Option::None,
        },
        Option::Some(_) => Option::None,
    }
}

/// Whether a configuration value is a readable tile record: a table whose
/// `oasis` key, if present, is a valid label list.
pub open spec fn spec_tile_parses(value: ConfigValue) -> bool {
    &&& value matches ConfigValue::Table(entries)
    &&& spec_tile_oasis(entries@) is Some
}

/// What reading one tile record returns: a table gives a record whose
/// fields mirror the table (absent or mistyped booleans and strings stay
/// absent), with `is_cross` forced to the given flag; a bad `oasis` list
/// or a non-table is refused.
pub open spec fn spec_tile_config_matches(
    value: ConfigValue,
    r: Result<TileConfig, ConfigParseError>,
    cross: bool,
) -> bool {
    match value {
        ConfigValue::Table(entries) => {
            let ev = entries@;
            match spec_tile_oasis(ev) {
                Option::None => r == Err::<TileConfig, ConfigParseError>(
                    ConfigParseError::InvalidOasisList,
                ),
                Option::Some(ob) => {
                    &&& r matches Ok(tc)
                    &&& tc.is_cross == Option::Some(cross)
                    &&& tc.is_desert == spec_opt_bool(ev, "is_desert"@)
                    &&& tc.n == spec_opt_bool(ev, "n"@)
                    &&& tc.e == spec_opt_bool(ev, "e"@)
                    &&& tc.s == spec_opt_bool(ev, "s"@)
                    &&& tc.w == spec_opt_bool(ev, "w"@)
                    &&& (tc.oasis is Some <==> ob is Some)
                    &&& (tc.oasis matches Some(f) ==> ob matches Some(b) && f.bits == b)
                    &&& spec_opt_text_eq(tc.treasure_n, spec_opt_text(ev, "treasure_n"@))
                    &&& spec_opt_text_eq(tc.treasure_e, spec_opt_text(ev, "treasure_e"@))
                    &&& spec_opt_text_eq(tc.treasure_s, spec_opt_text(ev, "treasure_s"@))
                    &&& spec_opt_text_eq(tc.treasure_w, spec_opt_text(ev, "treasure_w"@))
                },
            }
        },
        _ => r == Err::<TileConfig, ConfigParseError>(ConfigParseError::NotATable),
    }
}

impl TileConfig {
    /// Reads one tile record, marked as a deck tile.
    pub fn try_from_value(value: &ConfigValue) -> (r: Result<TileConfig, ConfigParseError>)
        ensures
            spec_tile_config_matches(*value, r, false),
    {
        TileConfig::parse_record(value, false)
    }

    /// Reads one tile record, marked as a cross tile.
    pub fn try_from_for_cross(value: &ConfigValue) -> (r: Result<TileConfig, ConfigParseError>)
        ensures
            spec_tile_config_matches(*value, r, true),
    {
        TileConfig::parse_record(value, true)
    }

    fn parse_record(value: &ConfigValue, cross: bool) -> (r: Result<TileConfig, ConfigParseError>)
        ensures
            spec_tile_config_matches(*value, r, cross),
    {
        match value {
            ConfigValue::Table(entries) => {
                let oasis: Option<OasisLayoutFlags> = match table_get(entries, "oasis") {
                    Some(v) => match v {
                        ConfigValue::List(items) => match oasis_from_items(items) {
                            Some(f) => Some(f),
                            None => {
                                return Err(ConfigParseError::InvalidOasisList);
                            },
                        },
                        _ => {
                            return Err(ConfigParseError::InvalidOasisList);
                        },
                    },
                    None => None,
                };
                Ok(
                    TileConfig {
                        is_cross: Some(cross),
                        is_desert: ConfigBool::from_key_in_table_as_bool("is_desert", entries),
                        n: ConfigBool::from_key_in_table_as_bool("n", entries),
                        e: ConfigBool::from_key_in_table_as_bool("e", entries),
                        s: ConfigBool::from_key_in_table_as_bool("s", entries),
                        w: ConfigBool::from_key_in_table_as_bool("w", entries),
                        oasis,
                        treasure_n: ConfigString::from_key_in_table_as_string(
                            "treasure_n",
                            entries,
                        ),
                        treasure_e: ConfigString::from_key_in_table_as_string(
                            "treasure_e",
                            entries,
                        ),
                        treasure_s: ConfigString::from_key_in_table_as_string(
                            "treasure_s",
                            entries,
                        ),
                        treasure_w: ConfigString::from_key_in_table_as_string(
                            "treasure_w",
                            entries,
                        ),
                    },
                )
            },
            _ => Err(ConfigParseError::NotATable),
        }
    }
}

/// A run of tile records read side by side: same length, each record read
/// with the given cross flag.
pub open spec fn spec_records_match(
    items: Seq<ConfigValue>,
    tiles: Seq<TileConfig>,
    cross: bool,
) -> bool {
    &&& tiles.len() == items.len()
    &&& forall|i: int|
        0 <= i < items.len() ==> spec_tile_config_matches(
            #[trigger] items[i],
            Ok(tiles[i]),
            cross,
        )
}

/// The error comes from the first unreadable record of the list.
pub open spec fn spec_first_bad_record(
    items: Seq<ConfigValue>,
    e: ConfigParseError,
    cross: bool,
) -> bool {
    exists|i: int|
        0 <= i < items.len() && (forall|k: int| 0 <= k < i ==> spec_tile_parses(#[trigger] items[k]))
            && !spec_tile_parses(#[trigger] items[i]) && spec_tile_config_matches(
            items[i],
            Err(e),
            cross,
        )
}

/// One arm of the starting cross: exactly five tile records.
#[derive(Debug, Clone, PartialEq)]
pub struct CrossConfigArray(pub Vec<TileConfig>);

/// What reading a cross arm returns: a list of exactly five readable
/// records gives their five cross-marked tiles; a non-list, an unreadable
/// record or a wrong count is refused, record errors first.
pub open spec fn spec_cross_array_matches(
    value: ConfigValue,
    r: Result<CrossConfigArray, ConfigParseError>,
) -> bool {
    match r {
        Ok(cca) => {
            &&& value matches ConfigValue::List(items)
            &&& items@.len() == 5
            &&& spec_records_match(items@, cca.0@, true)
        },
        Err(e) => {
            ||| (!(value is List) && e == ConfigParseError::NotAList)
            ||| (value matches ConfigValue::List(items) && spec_first_bad_record(items@, e, true))
            ||| (value matches ConfigValue::List(items) && (forall|i: int|
                0 <= i < items@.len() ==> spec_tile_parses(#[trigger] items@[i])) && items@.len()
                != 5 && e == ConfigParseError::WrongCrossSideLength)
        },
    }
}

impl CrossConfigArray {
    /// Reads one arm of the cross: five cross tile records.
    pub fn try_from_value(value: &ConfigValue) -> (r: Result<CrossConfigArray, ConfigParseError>)
        ensures
            spec_cross_array_matches(*value, r),
    {
        match value {
            ConfigValue::List(items) => {
                let mut tiles: Vec<TileConfig> = Vec::new();
                let mut i: usize = 0;
                while i < items.len()
                    invariant
                        (*value) is List,
                        value->List_0@ == items@,
                        i <= items@.len(),
                        tiles@.len() == i,
                        forall|k: int|
                            0 <= k < i ==> spec_tile_config_matches(
                                #[trigger] items@[k],
                                Ok(tiles@[k]),
                                true,
                            ),
                        forall|k: int| 0 <= k < i ==> spec_tile_parses(#[trigger] items@[k]),
                    decreases items@.len() - i,
                {
                    match TileConfig::try_from_for_cross(&items[i]) {
                        Ok(tc) => tiles.push(tc),
                        Err(e) => {
                            proof {
                                assert(!spec_tile_parses(items@[i as int]));
                                assert((i as int) < items@.len() && (forall|k: int|
                                    0 <= k < i as int ==> spec_tile_parses(#[trigger] items@[k]))
                                    && !spec_tile_parses(items@[i as int])
                                    && spec_tile_config_matches(items@[i as int], Err(e), true));
                                assert(spec_first_bad_record(items@, e, true));
                            }
                            return Err(e);
                        },
                    }
                    i = i + 1;
                }
                if tiles.len() != 5 {
                    return Err(ConfigParseError::WrongCrossSideLength);
                }
                Ok(CrossConfigArray(tiles))
            },
            _ => Err(ConfigParseError::NotAList),
        }
    }
}

/// One deck of the configuration: exactly 17 tile records.
#[derive(Debug, Clone, PartialEq)]
pub struct DeckConfig(pub Vec<TileConfig>);

/// What reading one deck returns: a list of exactly 17 readable records
/// gives their 17 deck tiles; a non-list or a wrong count is refused, the
/// count checked before the records.
pub open spec fn spec_deck_config_matches(
    value: ConfigValue,
    r: Result<DeckConfig, ConfigParseError>,
) -> bool {
    match r {
        Ok(dc) => {
            &&& value matches ConfigValue::List(items)
            &&& items@.len() == 17
            &&& spec_records_match(items@, dc.0@, false)
        },
        Err(e) => {
            ||| (!(value is List) && e == ConfigParseError::NotAList)
            ||| (value matches ConfigValue::List(items) && items@.len() != 17 && e
                == ConfigParseError::WrongDeckLength)
            ||| (value matches ConfigValue::List(items) && items@.len() == 17
                && spec_first_bad_record(items@, e, false))
        },
    }
}

impl DeckConfig {
    /// Reads one deck: exactly 17 deck tile records.
    pub fn try_from_value(value: &ConfigValue) -> (r: Result<DeckConfig, ConfigParseError>)
        ensures
            spec_deck_config_matches(*value, r),
    {
        match value {
            ConfigValue::List(items) => {
                if items.len() != 17 {
                    return Err(ConfigParseError::WrongDeckLength);
                }
                let mut tiles: Vec<TileConfig> = Vec::new();
                let mut i: usize = 0;
                while i < items.len()
                    invariant
                        (*value) is List,
                        value->List_0@ == items@,
                        i <= items@.len(),
                        items@.len() == 17,
                        tiles@.len() == i,
                        forall|k: int|
                            0 <= k < i ==> spec_tile_config_matches(
                                #[trigger] items@[k],
                                Ok(tiles@[k]),
                                false,
                            ),
                        forall|k: int| 0 <= k < i ==> spec_tile_parses(#[trigger] items@[k]),
                    decreases items@.len() - i,
                {
                    match TileConfig::try_from_value(&items[i]) {
                        Ok(tc) => tiles.push(tc),
                        Err(e) => {
                            proof {
                                assert(!spec_tile_parses(items@[i as int]));
                                assert((i as int) < items@.len() && (forall|k: int|
                                    0 <= k < i as int ==> spec_tile_parses(#[trigger] items@[k]))
                                    && !spec_tile_parses(items@[i as int])
                                    && spec_tile_config_matches(items@[i as int], Err(e), false));
                                assert(spec_first_bad_record(items@, e, false));
                            }
                            return Err(e);
                        },
                    }
                    i = i + 1;
                }
                Ok(DeckConfig(tiles))
            },
            _ => Err(ConfigParseError::NotAList),
        }
    }
}

/// Whether a table key holds a readable cross arm: a list of exactly
/// five readable tile records.
pub open spec fn spec_cross_side_ok(ev: Seq<(String, ConfigValue)>, key: Seq<char>) -> bool {
    &&& spec_table_get(ev, key) matches Some(ConfigValue::List(items))
    &&& items@.len() == 5
    &&& forall|i: int| 0 <= i < items@.len() ==> spec_tile_parses(#[trigger] items@[i])
}

/// The five cross tiles read from a table key.
pub open spec fn spec_cross_side_matches(
    ev: Seq<(String, ConfigValue)>,
    key: Seq<char>,
    tiles: Seq<TileConfig>,
) -> bool {
    &&& spec_table_get(ev, key) matches Some(ConfigValue::List(items))
    &&& items@.len() == 5
    &&& spec_records_match(items@, tiles, true)
}

/// Whether a table key holds a readable cross center: a readable tile
/// record.
pub open spec fn spec_cross_center_ok(ev: Seq<(String, ConfigValue)>) -> bool {
    spec_table_get(ev, "c"@) matches Some(cv) && spec_tile_parses(cv)
}

/// The five fixed starting tiles: the center and the four arms of the
/// cross, each arm five tiles read outward from the center.
#[derive(Debug, Clone, PartialEq)]
pub struct CrossConfig {
    pub c: TileConfig,
    pub n: Vec<TileConfig>,
    pub e: Vec<TileConfig>,
    pub s: Vec<TileConfig>,
    pub w: Vec<TileConfig>,
}

/// What reading the whole cross table returns: the value must be present
/// and a table, its `c` entry a readable cross record, and each of `n`,
/// `e`, `s`, `w` a readable arm; a failing center or arm is named, the
/// center checked first and the arms in [N, E, S, W] order.
pub open spec fn spec_cross_config_matches(
    value: Option<ConfigValue>,
    r: Result<CrossConfig, ConfigParseError>,
) -> bool {
    match r {
        Ok(cc) => {
            &&& value matches Some(ConfigValue::Table(entries))
            &&& ({
                let ev = entries@;
                &&& spec_table_get(ev, "c"@) matches Some(cv) && spec_tile_config_matches(
                    cv,
                    Ok(cc.c),
                    true,
                )
                &&& spec_cross_side_matches(ev, "n"@, cc.n@)
                &&& spec_cross_side_matches(ev, "e"@, cc.e@)
                &&& spec_cross_side_matches(ev, "s"@, cc.s@)
                &&& spec_cross_side_matches(ev, "w"@, cc.w@)
            })
        },
        Err(e) => {
            ||| (value is None && e == ConfigParseError::MissingCrossConfig)
            ||| (value matches Some(v) && !(v is Table) && e == ConfigParseError::NotATable)
            ||| (value matches Some(ConfigValue::Table(entries)) && ({
                let ev = entries@;
                ||| (!spec_cross_center_ok(ev) && e == ConfigParseError::MissingCrossCenter)
                ||| (spec_cross_center_ok(ev) && !spec_cross_side_ok(ev, "n"@) && e
                    == ConfigParseError::MissingCrossSide(CardinalDirection::N))
                ||| (spec_cross_center_ok(ev) && spec_cross_side_ok(ev, "n"@)
                    && !spec_cross_side_ok(ev, "e"@) && e == ConfigParseError::MissingCrossSide(
                    CardinalDirection::E,
                ))
                ||| (spec_cross_center_ok(ev) && spec_cross_side_ok(ev, "n"@)
                    && spec_cross_side_ok(ev, "e"@) && !spec_cross_side_ok(ev, "s"@) && e
                    == ConfigParseError::MissingCrossSide(CardinalDirection::S))
                ||| (spec_cross_center_ok(ev) && spec_cross_side_ok(ev, "n"@)
                    && spec_cross_side_ok(ev, "e"@) && spec_cross_side_ok(ev, "s"@)
                    && !spec_cross_side_ok(ev, "w"@) && e == ConfigParseError::MissingCrossSide(
                    CardinalDirection::W,
                ))
            }))
        },
    }
}

impl CrossConfig {
    /// Reads one arm of the cross from a table key; any failure along the
    /// way (key absent, not a list, unreadable record, wrong count) comes
    /// back as nothing.
    fn side_from_key(key: &str, table: &Vec<(String, ConfigValue)>) -> (r: Option<
        CrossConfigArray,
    >)
        ensures
            match r {
                Some(cca) => spec_cross_side_ok(table@, key@) && spec_cross_side_matches(
                    table@,
                    key@,
                    cca.0@,
                ),
                None => !spec_cross_side_ok(table@, key@),
            },
    {
        match table_get(table, key) {
            Some(v) => match CrossConfigArray::try_from_value(v) {
                Ok(cca) => Some(cca),
                Err(_) => None,
            },
            None => None,
        }
    }

    /// Reads the whole cross table: center first, then the four arms.
    pub fn try_from_value(value: Option<&ConfigValue>) -> (r: Result<CrossConfig, ConfigParseError>)
        ensures
            spec_cross_config_matches(
                match value {
                    Some(v) => Some(*v),
                    None => None::<ConfigValue>,
                },
                r,
            ),
    {
        let v = match value {
            Some(v) => v,
            None => {
                return Err(ConfigParseError::MissingCrossConfig);
            },
        };
        match v {
            ConfigValue::Table(entries) => {
                let c = match table_get(entries, "c") {
                    Some(cv) => match TileConfig::try_from_for_cross(cv) {
                        Ok(c) => c,
                        Err(_) => {
                            return Err(ConfigParseError::MissingCrossCenter);
                        },
                    },
                    None => {
                        return Err(ConfigParseError::MissingCrossCenter);
                    },
                };
                let n = match CrossConfig::side_from_key("n", entries) {
                    Some(cca) => cca.0,
                    None => {
                        return Err(ConfigParseError::MissingCrossSide(CardinalDirection::N));
                    },
                };
                let e = match CrossConfig::side_from_key("e", entries) {
                    Some(cca) => cca.0,
                    None => {
                        return Err(ConfigParseError::MissingCrossSide(CardinalDirection::E));
                    },
                };
                let s = match CrossConfig::side_from_key("s", entries) {
                    Some(cca) => cca.0,
                    None => {
                        return Err(ConfigParseError::MissingCrossSide(CardinalDirection::S));
                    },
                };
                let w = match CrossConfig::side_from_key("w", entries) {
                    Some(cca) => cca.0,
                    None => {
                        return Err(ConfigParseError::MissingCrossSide(CardinalDirection::W));
                    },
                };
                Ok(CrossConfig { c, n, e, s, w })
            },
            _ => Err(ConfigParseError::NotATable),
        }
    }

    /// The five tiles of the arm named `cross_n`, `cross_e`, `cross_s` or
    /// `cross_w`; any other name is refused.
    pub fn get_side<'a>(&'a self, side: &str) -> (r: Result<&'a Vec<TileConfig>, ConfigParseError>)
        ensures
            side@ == "cross_n"@ ==> r == Ok::<&Vec<TileConfig>, ConfigParseError>(&self.n),
            side@ == "cross_e"@ ==> r == Ok::<&Vec<TileConfig>, ConfigParseError>(&self.e),
            side@ == "cross_s"@ ==> r == Ok::<&Vec<TileConfig>, ConfigParseError>(&self.s),
            side@ == "cross_w"@ ==> r == Ok::<&Vec<TileConfig>, ConfigParseError>(&self.w),
            side@ != "cross_n"@ && side@ != "cross_e"@ && side@ != "cross_s"@ && side@
                != "cross_w"@ ==> r == Err::<&Vec<TileConfig>, ConfigParseError>(
                ConfigParseError::InvalidCrossSide,
            ),
    {
        proof {
            reveal_strlit("cross_n");
            reveal_strlit("cross_e");
            reveal_strlit("cross_s");
            reveal_strlit("cross_w");
            assert("cross_n"@[6] == 'n' && "cross_e"@[6] == 'e' && "cross_s"@[6] == 's'
                && "cross_w"@[6] == 'w');
        }
        if str_eq(side, "cross_n") {
            Ok(&self.n)
        } else if str_eq(side, "cross_e") {
            Ok(&self.e)
        } else if str_eq(side, "cross_s") {
            Ok(&self.s)
        } else if str_eq(side, "cross_w") {
            Ok(&self.w)
        } else {
            Err(ConfigParseError::InvalidCrossSide)
        }
    }

    /// The center tile of the cross.
    pub fn get_center<'a>(&'a self) -> (r: &'a TileConfig)
        ensures
            r == &self.c,
    {
        &self.c
    }
}

/// Whether one entry of the `decks` list is a table holding a `deck` key.
pub open spec fn spec_deck_entry(v: ConfigValue) -> Option<ConfigValue> {
    match v {
        ConfigValue::Table(de) => spec_table_get(de@, "deck"@),
        _ => Option::None,
    }
}

/// Whether one entry of the `decks` list carries a readable deck: a
/// `deck` key holding a list of exactly 17 readable records.
pub open spec fn spec_deck_parses(v: ConfigValue) -> bool {
    &&& spec_deck_entry(v) matches Some(ConfigValue::List(items))
    &&& items@.len() == 17
    &&& forall|i: int| 0 <= i < items@.len() ==> spec_tile_parses(#[trigger] items@[i])
}

/// The five decks of the game.
#[derive(Debug, Clone, PartialEq)]
pub struct DeckConfigArray(pub Vec<DeckConfig>);

/// What reading the `decks` list of the root table returns: the key must
/// hold a list of exactly five entries, each a table whose `deck` key
/// holds one readable deck. Failures come in this order: the key missing,
/// the value not a list, the first entry without a `deck` list, a count
/// other than five, the first unreadable deck.
pub open spec fn spec_deck_array_matches(
    tev: Seq<(String, ConfigValue)>,
    r: Result<DeckConfigArray, ConfigParseError>,
) -> bool {
    match r {
        Ok(dca) => {
            &&& spec_table_get(tev, "decks"@) matches Some(ConfigValue::List(ds))
            &&& ds@.len() == 5
            &&& dca.0@.len() == 5
            &&& forall|i: int|
                0 <= i < 5 ==> (spec_deck_entry(#[trigger] ds@[i]) matches Some(dv)
                    && spec_deck_config_matches(dv, Ok(dca.0@[i])))
        },
        Err(e) => {
            ||| (spec_table_get(tev, "decks"@) is None && e == ConfigParseError::MissingDecks)
            ||| (spec_table_get(tev, "decks"@) matches Some(v) && !(v is List) && e
                == ConfigParseError::NotAList)
            ||| (spec_table_get(tev, "decks"@) matches Some(ConfigValue::List(ds)) && ({
                ||| ((exists|i: int|
                    0 <= i < ds@.len() && (forall|k: int|
                        0 <= k < i ==> spec_deck_entry(#[trigger] ds@[k]) is Some)
                        && spec_deck_entry(#[trigger] ds@[i]) is None) && e
                    == ConfigParseError::MissingDeckList)
                ||| ((forall|i: int|
                    0 <= i < ds@.len() ==> spec_deck_entry(#[trigger] ds@[i]) is Some)
                    && ds@.len() != 5 && e == ConfigParseError::WrongDeckCount)
                ||| ((forall|i: int|
                    0 <= i < ds@.len() ==> spec_deck_entry(#[trigger] ds@[i]) is Some)
                    && ds@.len() == 5 && (exists|i: int|
                    0 <= i < 5 && (forall|k: int| 0 <= k < i ==> spec_deck_parses(#[trigger] ds@[k]))
                        && !spec_deck_parses(#[trigger] ds@[i]) && (spec_deck_entry(ds@[i])
                        matches Some(dv) && spec_deck_config_matches(dv, Err(e)))))
            }))
        },
    }
}

impl DeckConfigArray {
    /// Reads the five decks out of the root configuration table.
    pub fn try_from_table(table: &Vec<(String, ConfigValue)>) -> (r: Result<
        DeckConfigArray,
        ConfigParseError,
    >)
        ensures
            spec_deck_array_matches(table@, r),
    {
        let ds = match table_get(table, "decks") {
            Some(v) => match v {
                ConfigValue::List(ds) => ds,
                _ => {
                    return Err(ConfigParseError::NotAList);
                },
            },
            None => {
                return Err(ConfigParseError::MissingDecks);
            },
        };
        // First pass: every entry must carry a `deck` list.
        let mut lists: Vec<&ConfigValue> = Vec::new();
        let mut i: usize = 0;
        while i < ds.len()
            invariant
                spec_table_get(table@, "decks"@) matches Some(ConfigValue::List(dsv)) && dsv@
                    == ds@,
                i <= ds@.len(),
                lists@.len() == i,
                forall|k: int|
                    0 <= k < i ==> spec_deck_entry(#[trigger] ds@[k]) == Some(*lists@[k]),
            decreases ds@.len() - i,
        {
            match &ds[i] {
                ConfigValue::Table(de) => match table_get(de, "deck") {
                    Some(dv) => lists.push(dv),
                    None => {
                        proof {
                            assert((i as int) < ds@.len() && (forall|k: int|
                                0 <= k < i as int ==> spec_deck_entry(#[trigger] ds@[k]) is Some)
                                && spec_deck_entry(ds@[i as int]) is None);
                        }
                        return Err(ConfigParseError::MissingDeckList);
                    },
                },
                _ => {
                    proof {
                        assert((i as int) < ds@.len() && (forall|k: int|
                            0 <= k < i as int ==> spec_deck_entry(#[trigger] ds@[k]) is Some)
                            && spec_deck_entry(ds@[i as int]) is None);
                    }
                    return Err(ConfigParseError::MissingDeckList);
                },
            }
            i = i + 1;
        }
        if lists.len() != 5 {
            return Err(ConfigParseError::WrongDeckCount);
        }
        // Second pass: read each deck.
        let mut decks: Vec<DeckConfig> = Vec::new();
        let mut j: usize = 0;
        while j < 5
            invariant
                spec_table_get(table@, "decks"@) matches Some(ConfigValue::List(dsv)) && dsv@
                    == ds@,
                ds@.len() == 5,
                lists@.len() == 5,
                forall|k: int|
                    0 <= k < 5 ==> spec_deck_entry(#[trigger] ds@[k]) == Some(*lists@[k]),
                j <= 5,
                decks@.len() == j,
                forall|k: int|
                    0 <= k < j ==> (spec_deck_entry(#[trigger] ds@[k]) matches Some(dv)
                        && spec_deck_config_matches(dv, Ok(decks@[k]))),
                forall|k: int| 0 <= k < j ==> spec_deck_parses(#[trigger] ds@[k]),
            decreases 5 - j,
        {
            match DeckConfig::try_from_value(lists[j]) {
                Ok(dc) => decks.push(dc),
                Err(e) => {
                    proof {
                        assert(!spec_deck_parses(ds@[j as int]));
                        assert((j as int) < 5 && (forall|k: int|
                            0 <= k < j as int ==> spec_deck_parses(#[trigger] ds@[k]))
                            && !spec_deck_parses(ds@[j as int]) && (spec_deck_entry(ds@[j as int])
                            matches Some(dv) && spec_deck_config_matches(dv, Err(e))));
                    }
                    return Err(e);
                },
            }
            j = j + 1;
        }
        Ok(DeckConfigArray(decks))
    }
}

/// The whole tileset: the starting cross and the five decks.
#[derive(Debug, Clone, PartialEq)]
pub struct TilesetConfig {
    pub cross: CrossConfig,
    pub deck: Vec<DeckConfig>,
}

/// Whether the root table carries a readable cross.
pub open spec fn spec_cross_ok(tev: Seq<(String, ConfigValue)>) -> bool {
    &&& spec_table_get(tev, "cross"@) matches Some(ConfigValue::Table(entries))
    &&& spec_cross_center_ok(entries@)
    &&& spec_cross_side_ok(entries@, "n"@)
    &&& spec_cross_side_ok(entries@, "e"@)
    &&& spec_cross_side_ok(entries@, "s"@)
    &&& spec_cross_side_ok(entries@, "w"@)
}

/// What reading the whole tileset returns: the cross under the `cross`
/// key and the decks under the `decks` key, the cross read first.
pub open spec fn spec_tileset_matches(
    tev: Seq<(String, ConfigValue)>,
    r: Result<TilesetConfig, ConfigParseError>,
) -> bool {
    match r {
        Ok(ts) => {
            &&& spec_cross_config_matches(spec_table_get(tev, "cross"@), Ok(ts.cross))
            &&& spec_deck_array_matches(tev, Ok(DeckConfigArray(ts.deck)))
        },
        Err(e) => {
            ||| (!spec_cross_ok(tev) && spec_cross_config_matches(
                spec_table_get(tev, "cross"@),
                Err(e),
            ))
            ||| (spec_cross_ok(tev) && spec_deck_array_matches(tev, Err(e)))
        },
    }
}

impl TilesetConfig {
    /// Reads the whole tileset configuration out of its root table.
    pub fn try_from_table(table: &Vec<(String, ConfigValue)>) -> (r: Result<
        TilesetConfig,
        ConfigParseError,
    >)
        ensures
            spec_tileset_matches(table@, r),
    {
        let cross = match CrossConfig::try_from_value(table_get(table, "cross")) {
            Ok(cc) => cc,
            Err(e) => {
                return Err(e);
            },
        };
        let deck = match DeckConfigArray::try_from_table(table) {
            Ok(dca) => dca.0,
            Err(e) => {
                return Err(e);
            },
        };
        Ok(TilesetConfig { cross, deck })
    }
}

} // verus!
