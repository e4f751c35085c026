use sahara_tiles::config::{ConfigValue, TilesetConfig};
use sahara_tiles::flags::OasisLayoutFlags;

fn conv(v: &toml::Value) -> ConfigValue {
    match v {
        toml::Value::Boolean(b) => ConfigValue::Boolean(*b),
        toml::Value::String(s) => ConfigValue::Text(s.clone()),
        toml::Value::Array(a) => ConfigValue::List(a.iter().map(conv).collect()),
        toml::Value::Table(t) => ConfigValue::Table(conv_table(t)),
        _ => ConfigValue::Other,
    }
}

fn conv_table(t: &toml::Table) -> Vec<(String, ConfigValue)> {
    t.iter().map(|(k, v)| (k.clone(), conv(v))).collect()
}

fn flags(bits: u16) -> Option<OasisLayoutFlags> {
    Some(OasisLayoutFlags { bits })
}

#[test]
fn loader_test_parse_tileset_config() {
    let input = String::from(
        r#"
# Configuration for the cross center
[cross.c]
is_desert = false

# 4 lists describing each part of the starting cross
# Read the directions like you would read a map
# Numbered going outwards from the center
# N1
[[cross.n]]
is_desert = false
w = true
# N2
[[cross.n]]
is_desert = false
e = true
# N3
[[cross.n]]
is_desert = false
w = true
# N4
[[cross.n]]
is_desert = false
e = true
# N5
[[cross.n]]
is_desert = false

# E1
[[cross.e]]
is_desert = false
# E2
[[cross.e]]
is_desert = false
s = true
# E3
[[cross.e]]
is_desert = false
n = true
# E4
[[cross.e]]
s = true
is_desert = false
# E5
[[cross.e]]
is_desert = false

# S1
[[cross.s]]
is_desert = false
# S2
[[cross.s]]
is_desert = false
# S3
[[cross.s]]
is_desert = false
e = true
w = true
# S4
[[cross.s]]
is_desert = false
# S5
[[cross.s]]
is_desert = false

# W1
[[cross.w]]
is_desert = false
# W2
[[cross.w]]
is_desert = false
n = true
s = true
# W3
[[cross.w]]
is_desert = false
# W4
[[cross.w]]
is_desert = false
n = true
s = true
# W5
[[cross.w]]
is_desert = false

# Lists describing each of the 'decks' used in the game
# Deck 1 
[[decks]]
# 1
[[decks.deck]]
is_desert = false
n = false
e = false
s = false
w = false
treasure_n = "none"
treasure_e = "none"
treasure_s = "none"
treasure_w = "none"

# 2
[[decks.deck]]
is_desert = false
n = false
e = false
s = false
w = false
treasure_n = "none"
treasure_e = "none"
treasure_s = "none"
treasure_w = "none"

# 3
[[decks.deck]]
is_desert = false
n = false
e = false
s = false
w = false
treasure_n = "none"
treasure_e = "none"
treasure_s = "none"
treasure_w = "none"

# 4
[[decks.deck]]
is_desert = false
n = false
e = false
s = false
w = false
treasure_n = "none"
treasure_e = "none"
treasure_s = "none"
treasure_w = "none"

# 5
[[decks.deck]]
is_desert = false
n = false
e = false
s = false
w = false
treasure_n = "none"
treasure_e = "none"
treasure_s = "none"
treasure_w = "none"

# 6
[[decks.deck]]
is_desert = false
n = false
e = false
s = false
w = false
treasure_n = "none"
treasure_e = "none"
treasure_s = "none"
treasure_w = "none"

# 7
[[decks.deck]]
is_desert = false
n = false
e = false
s = false
w = false
treasure_n = "none"
treasure_e = "none"
treasure_s = "none"
treasure_w = "none"

# 8
[[decks.deck]]
is_desert = false
n = false
e = false
s = false
w = false
treasure_n = "none"
treasure_e = "none"
treasure_s = "none"
treasure_w = "none"

# 9
[[decks.deck]]
is_desert = false
n = false
e = false
s = false
w = false
treasure_n = "none"
treasure_e = "none"
treasure_s = "none"
treasure_w = "none"

# 10
[[decks.deck]]
is_desert = false
n = false
e = false
s = false
w = false
treasure_n = "none"
treasure_e = "none"
treasure_s = "none"
treasure_w = "none"

# 11
[[decks.deck]]
is_desert = false
n = false
e = false
s = false
w = false
treasure_n = "none"
treasure_e = "none"
treasure_s = "none"
treasure_w = "none"

# 12
[[decks.deck]]
is_desert = false
n = false
e = false
s = false
w = false
treasure_n = "none"
treasure_e = "none"
treasure_s = "none"
treasure_w = "none"

# 13
[[decks.deck]]
is_desert = false
n = false
e = false
s = false
w = false
treasure_n = "none"
treasure_e = "none"
treasure_s = "none"
treasure_w = "none"

# 14
[[decks.deck]]
is_desert = false
n = false
e = false
s = false
w = false
treasure_n = "none"
treasure_e = "none"
treasure_s = "none"
treasure_w = "none"

# 15
[[decks.deck]]
is_desert = false
n = false
e = false
s = false
w = false
treasure_n = "none"
treasure_e = "none"
treasure_s = "none"
treasure_w = "none"

# 16
[[decks.deck]]
is_desert = false
n = false
e = false
s = false
w = false
treasure_n = "none"
treasure_e = "none"
treasure_s = "none"
treasure_w = "none"

# 17
[[decks.deck]]
is_desert = false
n = false
e = false
s = false
w = false
treasure_n = "none"
treasure_e = "none"
treasure_s = "none"
treasure_w = "none"


# Deck 2 
[[decks]]
# 1
[[decks.deck]]
is_desert = false
n = false
e = false
s = false
w = false
treasure_n = "none"
treasure_e = "none"
treasure_s = "none"
treasure_w = "none"

# 2
[[decks.deck]]
is_desert = false
n = false
e = false
s = false
w = false
treasure_n = "none"
treasure_e = "none"
treasure_s = "none"
treasure_w = "none"

# 3
[[decks.deck]]
is_desert = false
n = false
e = false
s = false
w = false
treasure_n = "none"
treasure_e = "none"
treasure_s = "none"
treasure_w = "none"

# 4
[[decks.deck]]
is_desert = false
n = false
e = false
s = false
w = false
treasure_n = "none"
treasure_e = "none"
treasure_s = "none"
treasure_w = "none"

# 5
[[decks.deck]]
is_desert = false
n = false
e = false
s = false
w = false
treasure_n = "none"
treasure_e = "none"
treasure_s = "none"
treasure_w = "none"

# 6
[[decks.deck]]
is_desert = false
n = false
e = false
s = false
w = false
treasure_n = "none"
treasure_e = "none"
treasure_s = "none"
treasure_w = "none"

# 7
[[decks.deck]]
is_desert = false
n = false
e = false
s = false
w = false
treasure_n = "none"
treasure_e = "none"
treasure_s = "none"
treasure_w = "none"

# 8
[[decks.deck]]
is_desert = false
n = false
e = false
s = false
w = false
treasure_n = "none"
treasure_e = "none"
treasure_s = "none"
treasure_w = "none"

# 9
[[decks.deck]]
is_desert = false
n = false
e = false
s = false
w = false
treasure_n = "none"
treasure_e = "none"
treasure_s = "none"
treasure_w = "none"

# 10
[[decks.deck]]
is_desert = false
n = false
e = false
s = false
w = false
treasure_n = "none"
treasure_e = "none"
treasure_s = "none"
treasure_w = "none"

# 11
[[decks.deck]]
is_desert = false
n = false
e = false
s = false
w = false
treasure_n = "none"
treasure_e = "none"
treasure_s = "none"
treasure_w = "none"

# 12
[[decks.deck]]
is_desert = false
n = false
e = false
s = false
w = false
treasure_n = "none"
treasure_e = "none"
treasure_s = "none"
treasure_w = "none"

# 13
[[decks.deck]]
is_desert = false
n = false
e = false
s = false
w = false
treasure_n = "none"
treasure_e = "none"
treasure_s = "none"
treasure_w = "none"

# 14
[[decks.deck]]
is_desert = false
n = false
e = false
s = false
w = false
treasure_n = "none"
treasure_e = "none"
treasure_s = "none"
treasure_w = "none"

# 15
[[decks.deck]]
is_desert = false
n = false
e = false
s = false
w = false
treasure_n = "none"
treasure_e = "none"
treasure_s = "none"
treasure_w = "none"

# 16
[[decks.deck]]
is_desert = false
n = false
e = false
s = false
w = false
treasure_n = "none"
treasure_e = "none"
treasure_s = "none"
treasure_w = "none"

# 17
[[decks.deck]]
is_desert = false
n = false
e = false
s = false
w = false
treasure_n = "none"
treasure_e = "none"
treasure_s = "none"
treasure_w = "none"


# Deck 3
[[decks]]
# 1
[[decks.deck]]
is_desert = false
n = false
e = false
s = false
w = false
treasure_n = "none"
treasure_e = "none"
treasure_s = "none"
treasure_w = "none"

# 2
[[decks.deck]]
is_desert = false
n = false
e = false
s = false
w = false
treasure_n = "none"
treasure_e = "none"
treasure_s = "none"
treasure_w = "none"

# 3
[[decks.deck]]
is_desert = false
n = false
e = false
s = false
w = false
treasure_n = "none"
treasure_e = "none"
treasure_s = "none"
treasure_w = "none"

# 4
[[decks.deck]]
is_desert = false
n = false
e = false
s = false
w = false
treasure_n = "none"
treasure_e = "none"
treasure_s = "none"
treasure_w = "none"

# 5
[[decks.deck]]
is_desert = false
n = false
e = false
s = false
w = false
treasure_n = "none"
treasure_e = "none"
treasure_s = "none"
treasure_w = "none"

# 6
[[decks.deck]]
is_desert = false
n = false
e = false
s = false
w = false
treasure_n = "none"
treasure_e = "none"
treasure_s = "none"
treasure_w = "none"

# 7
[[decks.deck]]
is_desert = false
n = false
e = false
s = false
w = false
treasure_n = "none"
treasure_e = "none"
treasure_s = "none"
treasure_w = "none"

# 8
[[decks.deck]]
is_desert = false
n = false
e = false
s = false
w = false
treasure_n = "none"
treasure_e = "none"
treasure_s = "none"
treasure_w = "none"

# 9
[[decks.deck]]
is_desert = false
n = false
e = false
s = false
w = false
treasure_n = "none"
treasure_e = "none"
treasure_s = "none"
treasure_w = "none"

# 10
[[decks.deck]]
is_desert = false
n = false
e = false
s = false
w = false
treasure_n = "none"
treasure_e = "none"
treasure_s = "none"
treasure_w = "none"

# 11
[[decks.deck]]
is_desert = false
n = false
e = false
s = false
w = false
treasure_n = "none"
treasure_e = "none"
treasure_s = "none"
treasure_w = "none"

# 12
[[decks.deck]]
is_desert = false
n = false
e = false
s = false
w = false
treasure_n = "none"
treasure_e = "none"
treasure_s = "none"
treasure_w = "none"

# 13
[[decks.deck]]
is_desert = false
n = false
e = false
s = false
w = false
treasure_n = "none"
treasure_e = "none"
treasure_s = "none"
treasure_w = "none"

# 14
[[decks.deck]]
is_desert = false
n = false
e = false
s = false
w = false
treasure_n = "none"
treasure_e = "none"
treasure_s = "none"
treasure_w = "none"

# 15
[[decks.deck]]
is_desert = false
n = false
e = false
s = false
w = false
treasure_n = "none"
treasure_e = "none"
treasure_s = "none"
treasure_w = "none"

# 16
[[decks.deck]]
is_desert = false
n = false
e = false
s = false
w = false
treasure_n = "none"
treasure_e = "none"
treasure_s = "none"
treasure_w = "none"

# 17
[[decks.deck]]
is_desert = false
n = false
e = false
s = false
w = false
treasure_n = "none"
treasure_e = "none"
treasure_s = "none"
treasure_w = "none"


# Deck 4
[[decks]]
# 1
[[decks.deck]]
is_desert = false
n = false
e = false
s = false
w = false
treasure_n = "none"
treasure_e = "none"
treasure_s = "none"
treasure_w = "none"

# 2
[[decks.deck]]
is_desert = false
n = false
e = false
s = false
w = false
treasure_n = "none"
treasure_e = "none"
treasure_s = "none"
treasure_w = "none"

# 3
[[decks.deck]]
is_desert = false
n = false
e = false
s = false
w = false
treasure_n = "none"
treasure_e = "none"
treasure_s = "none"
treasure_w = "none"

# 4
[[decks.deck]]
is_desert = false
n = false
e = false
s = false
w = false
treasure_n = "none"
treasure_e = "none"
treasure_s = "none"
treasure_w = "none"

# 5
[[decks.deck]]
is_desert = false
n = false
e = false
s = false
w = false
treasure_n = "none"
treasure_e = "none"
treasure_s = "none"
treasure_w = "none"

# 6
[[decks.deck]]
is_desert = false
n = false
e = false
s = false
w = false
treasure_n = "none"
treasure_e = "none"
treasure_s = "none"
treasure_w = "none"

# 7
[[decks.deck]]
is_desert = false
n = false
e = false
s = false
w = false
treasure_n = "none"
treasure_e = "none"
treasure_s = "none"
treasure_w = "none"

# 8
[[decks.deck]]
is_desert = false
n = false
e = false
s = false
w = false
treasure_n = "none"
treasure_e = "none"
treasure_s = "none"
treasure_w = "none"

# 9
[[decks.deck]]
is_desert = false
n = false
e = false
s = false
w = false
treasure_n = "none"
treasure_e = "none"
treasure_s = "none"
treasure_w = "none"

# 10
[[decks.deck]]
is_desert = false
n = false
e = false
s = false
w = false
treasure_n = "none"
treasure_e = "none"
treasure_s = "none"
treasure_w = "none"

# 11
[[decks.deck]]
is_desert = false
n = false
e = false
s = false
w = false
treasure_n = "none"
treasure_e = "none"
treasure_s = "none"
treasure_w = "none"

# 12
[[decks.deck]]
is_desert = false
n = false
e = false
s = false
w = false
treasure_n = "none"
treasure_e = "none"
treasure_s = "none"
treasure_w = "none"

# 13
[[decks.deck]]
is_desert = false
n = false
e = false
s = false
w = false
treasure_n = "none"
treasure_e = "none"
treasure_s = "none"
treasure_w = "none"

# 14
[[decks.deck]]
is_desert = false
n = false
e = false
s = false
w = false
treasure_n = "none"
treasure_e = "none"
treasure_s = "none"
treasure_w = "none"

# 15
[[decks.deck]]
is_desert = false
n = false
e = false
s = false
w = false
treasure_n = "none"
treasure_e = "none"
treasure_s = "none"
treasure_w = "none"

# 16
[[decks.deck]]
is_desert = false
n = false
e = false
s = false
w = false
treasure_n = "none"
treasure_e = "none"
treasure_s = "none"
treasure_w = "none"

# 17
[[decks.deck]]
is_desert = false
n = false
e = false
s = false
w = false
treasure_n = "none"
treasure_e = "none"
treasure_s = "none"
treasure_w = "none"


# Deck 5
[[decks]]
# 1
[[decks.deck]]
is_desert = false
n = false
e = false
s = false
w = false
treasure_n = "none"
treasure_e = "none"
treasure_s = "none"
treasure_w = "none"

# 2
[[decks.deck]]
is_desert = false
n = false
e = false
s = false
w = false
treasure_n = "none"
treasure_e = "none"
treasure_s = "none"
treasure_w = "none"

# 3
[[decks.deck]]
is_desert = false
n = false
e = false
s = false
w = false
treasure_n = "none"
treasure_e = "none"
treasure_s = "none"
treasure_w = "none"

# 4
[[decks.deck]]
is_desert = false
n = false
e = false
s = false
w = false
treasure_n = "none"
treasure_e = "none"
treasure_s = "none"
treasure_w = "none"

# 5
[[decks.deck]]
is_desert = false
n = false
e = false
s = false
w = false
treasure_n = "none"
treasure_e = "none"
treasure_s = "none"
treasure_w = "none"

# 6
[[decks.deck]]
is_desert = false
n = false
e = false
s = false
w = false
treasure_n = "none"
treasure_e = "none"
treasure_s = "none"
treasure_w = "none"

# 7
[[decks.deck]]
is_desert = false
n = false
e = false
s = false
w = false
treasure_n = "none"
treasure_e = "none"
treasure_s = "none"
treasure_w = "none"

# 8
[[decks.deck]]
is_desert = false
n = false
e = false
s = false
w = false
treasure_n = "none"
treasure_e = "none"
treasure_s = "none"
treasure_w = "none"

# 9
[[decks.deck]]
is_desert = false
n = false
e = false
s = false
w = false
treasure_n = "none"
treasure_e = "none"
treasure_s = "none"
treasure_w = "none"

# 10
[[decks.deck]]
is_desert = false
n = false
e = false
s = false
w = false
treasure_n = "none"
treasure_e = "none"
treasure_s = "none"
treasure_w = "none"

# 11
[[decks.deck]]
is_desert = false
n = false
e = false
s = false
w = false
treasure_n = "none"
treasure_e = "none"
treasure_s = "none"
treasure_w = "none"

# 12
[[decks.deck]]
is_desert = false
n = false
e = false
s = false
w = false
treasure_n = "none"
treasure_e = "none"
treasure_s = "none"
treasure_w = "none"

# 13
[[decks.deck]]
is_desert = false
n = false
e = false
s = false
w = false
treasure_n = "none"
treasure_e = "none"
treasure_s = "none"
treasure_w = "none"

# 14
[[decks.deck]]
is_desert = false
n = false
e = false
s = false
w = false
treasure_n = "none"
treasure_e = "none"
treasure_s = "none"
treasure_w = "none"

# 15
[[decks.deck]]
is_desert = false
n = false
e = false
s = false
w = false
treasure_n = "none"
treasure_e = "none"
treasure_s = "none"
treasure_w = "none"

# 16
[[decks.deck]]
is_desert = false
n = false
e = false
s = false
w = false
treasure_n = "none"
treasure_e = "none"
treasure_s = "none"
treasure_w = "none"

# 17
[[decks.deck]]
is_desert = false
n = false
e = false
s = false
w = false
treasure_n = "none"
treasure_e = "none"
treasure_s = "none"
treasure_w = "none"
"#,
    );

    let table = toml::from_str::<toml::Table>(&input).unwrap();
    let entries = conv_table(&table);

    let parsed_config = TilesetConfig::try_from_table(&entries);

    println!("{parsed_config:?}");

    assert!(matches!(parsed_config, Ok(_)));

    let tileset_config = parsed_config.unwrap();

    assert_eq!(tileset_config.deck.len(), 5);
    let c = &tileset_config.cross.c;
    let n = &tileset_config.cross.n;
    let w = &tileset_config.cross.w;

    assert_eq!(c.is_desert, Some(false));

    assert_eq!(n[0].is_desert, Some(false));
    assert!(matches!(n[0].n, Some(false) | None));
    assert!(matches!(n[0].e, Some(false) | None));
    assert!(matches!(n[0].s, Some(false) | None));
    assert_eq!(n[0].w, Some(true));

    assert_eq!(w[1].is_desert, Some(false));
    assert_eq!(w[1].n, Some(true));
    assert!(matches!(w[1].e, Some(false) | None));
    assert_eq!(w[1].s, Some(true));
    assert!(matches!(w[1].w, Some(false) | None));
}

#[test]
fn test_test_parse_tileset_config() {
    let input = String::from(
        r#"
# Configuration for the cross center
[cross.c]
is_desert = false

# 4 lists describing each part of the starting cross
# Numbered going outwards from the center
# N1
[[cross.n]]
is_desert = false
oasis = ["W"]
# N2
[[cross.n]]
is_desert = false
oasis = ["E"]
# N3
[[cross.n]]
is_desert = false
oasis = ["W"]
# N4
[[cross.n]]
is_desert = false
oasis = ["E"]
# N5
[[cross.n]]
is_desert = false

# E1
[[cross.e]]
is_desert = false
# E2
[[cross.e]]
is_desert = false
oasis = ["S"]
# E3
[[cross.e]]
is_desert = false
oasis = ["N"]
# E4
[[cross.e]]
oasis = ["S"]
is_desert = false
# E5
[[cross.e]]
is_desert = false

# S1
[[cross.s]]
is_desert = false
# S2
[[cross.s]]
is_desert = false
# S3
[[cross.s]]
is_desert = false
oasis = ["E", "W"]
# S4
[[cross.s]]
is_desert = false
# S5
[[cross.s]]
is_desert = false

# W1
[[cross.w]]
is_desert = false
# W2
[[cross.w]]
is_desert = false
oasis = ["N", "S"]
# W3
[[cross.w]]
is_desert = false
# W4
[[cross.w]]
is_desert = false
oasis = ["N", "S"]
# W5
[[cross.w]]
is_desert = false

# Lists describing each of the "decks" used in the game

# Deck 1 
[[decks]]
# 1
[[decks.deck]]
is_desert = true
oasis = ["E | S"]
treasure_n = "none"
treasure_e = "salt"
treasure_s = "rumors"
treasure_w = "none"

# 2
[[decks.deck]]
is_desert = false
oasis = ["N"]
treasure_n = "none"
treasure_e = "none"
treasure_s = "none"
treasure_w = "none"

# 3
[[decks.deck]]
is_desert = true
oasis = []
treasure_n = "none"
treasure_e = "none"
treasure_s = "none"
treasure_w = "none"

# 4
[[decks.deck]]
is_desert = false
oasis = ["E"]
treasure_n = "none"
treasure_e = "none"
treasure_s = "goods:gems"
treasure_w = "none"

# 5
[[decks.deck]]
is_desert = false
oasis = []
treasure_n = "none"
treasure_e = "none"
treasure_s = "none"
treasure_w = "none"

# 6
[[decks.deck]]
is_desert = false
oasis = []
treasure_n = "none"
treasure_e = "none"
treasure_s = "none"
treasure_w = "none"

# 7
[[decks.deck]]
is_desert = false
oasis = []
treasure_n = "none"
treasure_e = "none"
treasure_s = "none"
treasure_w = "none"

# 8
[[decks.deck]]
is_desert = false
oasis = []
treasure_n = "none"
treasure_e = "none"
treasure_s = "none"
treasure_w = "none"

# 9
[[decks.deck]]
is_desert = false
oasis = []
treasure_n = "none"
treasure_e = "none"
treasure_s = "none"
treasure_w = "none"

# 10
[[decks.deck]]
is_desert = false
oasis = []
treasure_n = "none"
treasure_e = "none"
treasure_s = "none"
treasure_w = "none"

# 11
[[decks.deck]]
is_desert = false
oasis = []
treasure_n = "none"
treasure_e = "none"
treasure_s = "none"
treasure_w = "none"

# 12
[[decks.deck]]
is_desert = false
oasis = []
treasure_n = "none"
treasure_e = "none"
treasure_s = "none"
treasure_w = "none"

# 13
[[decks.deck]]
is_desert = false
oasis = []
treasure_n = "none"
treasure_e = "none"
treasure_s = "none"
treasure_w = "none"

# 14
[[decks.deck]]
is_desert = false
oasis = []
treasure_n = "none"
treasure_e = "none"
treasure_s = "none"
treasure_w = "none"

# 15
[[decks.deck]]
is_desert = false
oasis = []
treasure_n = "none"
treasure_e = "none"
treasure_s = "none"
treasure_w = "none"

# 16
[[decks.deck]]
is_desert = false
oasis = []
treasure_n = "none"
treasure_e = "none"
treasure_s = "none"
treasure_w = "none"

# 17
[[decks.deck]]
is_desert = false
oasis = []
treasure_n = "none"
treasure_e = "none"
treasure_s = "none"
treasure_w = "none"


# Deck 2 
[[decks]]
# 1
[[decks.deck]]
is_desert = false
oasis = []
treasure_n = "none"
treasure_e = "none"
treasure_s = "none"
treasure_w = "none"

# 2
[[decks.deck]]
is_desert = false
oasis = []
treasure_n = "none"
treasure_e = "none"
treasure_s = "none"
treasure_w = "none"

# 3
[[decks.deck]]
is_desert = false
oasis = []
treasure_n = "none"
treasure_e = "none"
treasure_s = "none"
treasure_w = "none"

# 4
[[decks.deck]]
is_desert = false
oasis = []
treasure_n = "none"
treasure_e = "none"
treasure_s = "none"
treasure_w = "none"

# 5
[[decks.deck]]
is_desert = false
oasis = []
treasure_n = "none"
treasure_e = "none"
treasure_s = "none"
treasure_w = "none"

# 6
[[decks.deck]]
is_desert = false
oasis = []
treasure_n = "none"
treasure_e = "none"
treasure_s = "none"
treasure_w = "none"

# 7
[[decks.deck]]
is_desert = false
oasis = []
treasure_n = "none"
treasure_e = "none"
treasure_s = "none"
treasure_w = "none"

# 8
[[decks.deck]]
is_desert = false
oasis = []
treasure_n = "none"
treasure_e = "none"
treasure_s = "none"
treasure_w = "none"

# 9
[[decks.deck]]
is_desert = false
oasis = []
treasure_n = "none"
treasure_e = "none"
treasure_s = "none"
treasure_w = "none"

# 10
[[decks.deck]]
is_desert = false
oasis = []
treasure_n = "none"
treasure_e = "none"
treasure_s = "none"
treasure_w = "none"

# 11
[[decks.deck]]
is_desert = false
oasis = []
treasure_n = "none"
treasure_e = "none"
treasure_s = "none"
treasure_w = "none"

# 12
[[decks.deck]]
is_desert = false
oasis = []
treasure_n = "none"
treasure_e = "none"
treasure_s = "none"
treasure_w = "none"

# 13
[[decks.deck]]
is_desert = false
oasis = []
treasure_n = "none"
treasure_e = "none"
treasure_s = "none"
treasure_w = "none"

# 14
[[decks.deck]]
is_desert = false
oasis = []
treasure_n = "none"
treasure_e = "none"
treasure_s = "none"
treasure_w = "none"

# 15
[[decks.deck]]
is_desert = false
oasis = []
treasure_n = "none"
treasure_e = "none"
treasure_s = "none"
treasure_w = "none"

# 16
[[decks.deck]]
is_desert = false
oasis = []
treasure_n = "none"
treasure_e = "none"
treasure_s = "none"
treasure_w = "none"

# 17
[[decks.deck]]
is_desert = false
oasis = []
treasure_n = "none"
treasure_e = "none"
treasure_s = "none"
treasure_w = "none"


# Deck 3
[[decks]]
# 1
[[decks.deck]]
is_desert = true
oasis = []
treasure_n = "none"
treasure_e = "none"
treasure_s = "none"
treasure_w = "none"

# 2
[[decks.deck]]
is_desert = false
oasis = ["E"]
treasure_n = "none"
treasure_e = "none"
treasure_s = "none"
treasure_w = "none"

# 3
[[decks.deck]]
is_desert = false
oasis = ["S"]
treasure_n = "none"
treasure_e = "none"
treasure_s = "rumors"
treasure_w = "none"

# 4
[[decks.deck]]
is_desert = false
oasis = []
treasure_n = "none"
treasure_e = "none"
treasure_s = "none"
treasure_w = "none"

# 5
[[decks.deck]]
is_desert = false
oasis = []
treasure_n = "none"
treasure_e = "none"
treasure_s = "none"
treasure_w = "none"

# 6
[[decks.deck]]
is_desert = false
oasis = []
treasure_n = "none"
treasure_e = "none"
treasure_s = "none"
treasure_w = "none"

# 7
[[decks.deck]]
is_desert = false
oasis = []
treasure_n = "none"
treasure_e = "none"
treasure_s = "none"
treasure_w = "none"

# 8
[[decks.deck]]
is_desert = false
oasis = []
treasure_n = "none"
treasure_e = "none"
treasure_s = "none"
treasure_w = "none"

# 9
[[decks.deck]]
is_desert = false
oasis = []
treasure_n = "none"
treasure_e = "none"
treasure_s = "none"
treasure_w = "none"

# 10
[[decks.deck]]
is_desert = false
oasis = []
treasure_n = "none"
treasure_e = "none"
treasure_s = "none"
treasure_w = "none"

# 11
[[decks.deck]]
is_desert = false
oasis = []
treasure_n = "none"
treasure_e = "none"
treasure_s = "none"
treasure_w = "none"

# 12
[[decks.deck]]
is_desert = false
oasis = []
treasure_n = "none"
treasure_e = "none"
treasure_s = "none"
treasure_w = "none"

# 13
[[decks.deck]]
is_desert = false
oasis = []
treasure_n = "none"
treasure_e = "none"
treasure_s = "none"
treasure_w = "none"

# 14
[[decks.deck]]
is_desert = false
oasis = []
treasure_n = "none"
treasure_e = "none"
treasure_s = "none"
treasure_w = "none"

# 15
[[decks.deck]]
is_desert = false
oasis = []
treasure_n = "none"
treasure_e = "none"
treasure_s = "none"
treasure_w = "none"

# 16
[[decks.deck]]
is_desert = false
oasis = []
treasure_n = "none"
treasure_e = "none"
treasure_s = "none"
treasure_w = "none"

# 17
[[decks.deck]]
is_desert = false
oasis = []
treasure_n = "none"
treasure_e = "none"
treasure_s = "none"
treasure_w = "none"


# Deck 4
[[decks]]
# 1
[[decks.deck]]
is_desert = false
oasis = []
treasure_n = "none"
treasure_e = "none"
treasure_s = "none"
treasure_w = "none"

# 2
[[decks.deck]]
is_desert = false
oasis = []
treasure_n = "none"
treasure_e = "none"
treasure_s = "none"
treasure_w = "none"

# 3
[[decks.deck]]
is_desert = false
oasis = []
treasure_n = "none"
treasure_e = "none"
treasure_s = "none"
treasure_w = "none"

# 4
[[decks.deck]]
is_desert = false
oasis = []
treasure_n = "none"
treasure_e = "none"
treasure_s = "none"
treasure_w = "none"

# 5
[[decks.deck]]
is_desert = false
oasis = []
treasure_n = "none"
treasure_e = "none"
treasure_s = "none"
treasure_w = "none"

# 6
[[decks.deck]]
is_desert = false
oasis = []
treasure_n = "none"
treasure_e = "none"
treasure_s = "none"
treasure_w = "none"

# 7
[[decks.deck]]
is_desert = false
oasis = []
treasure_n = "none"
treasure_e = "none"
treasure_s = "none"
treasure_w = "none"

# 8
[[decks.deck]]
is_desert = false
oasis = []
treasure_n = "none"
treasure_e = "none"
treasure_s = "none"
treasure_w = "none"

# 9
[[decks.deck]]
is_desert = false
oasis = []
treasure_n = "none"
treasure_e = "none"
treasure_s = "none"
treasure_w = "none"

# 10
[[decks.deck]]
is_desert = false
oasis = []
treasure_n = "none"
treasure_e = "none"
treasure_s = "none"
treasure_w = "none"

# 11
[[decks.deck]]
is_desert = false
oasis = []
treasure_n = "none"
treasure_e = "none"
treasure_s = "none"
treasure_w = "none"

# 12
[[decks.deck]]
is_desert = false
oasis = []
treasure_n = "none"
treasure_e = "none"
treasure_s = "none"
treasure_w = "none"

# 13
[[decks.deck]]
is_desert = false
oasis = []
treasure_n = "none"
treasure_e = "none"
treasure_s = "none"
treasure_w = "none"

# 14
[[decks.deck]]
is_desert = false
oasis = []
treasure_n = "none"
treasure_e = "none"
treasure_s = "none"
treasure_w = "none"

# 15
[[decks.deck]]
is_desert = false
oasis = []
treasure_n = "none"
treasure_e = "none"
treasure_s = "none"
treasure_w = "none"

# 16
[[decks.deck]]
is_desert = false
oasis = []
treasure_n = "none"
treasure_e = "none"
treasure_s = "none"
treasure_w = "none"

# 17
[[decks.deck]]
is_desert = false
oasis = []
treasure_n = "none"
treasure_e = "none"
treasure_s = "none"
treasure_w = "none"


# Deck 5
[[decks]]
# 1
[[decks.deck]]
is_desert = false
oasis = []
treasure_n = "none"
treasure_e = "none"
treasure_s = "none"
treasure_w = "none"

# 2
[[decks.deck]]
is_desert = false
oasis = []
treasure_n = "none"
treasure_e = "none"
treasure_s = "none"
treasure_w = "none"

# 3
[[decks.deck]]
is_desert = false
oasis = []
treasure_n = "none"
treasure_e = "none"
treasure_s = "none"
treasure_w = "none"

# 4
[[decks.deck]]
is_desert = false
oasis = []
treasure_n = "none"
treasure_e = "none"
treasure_s = "none"
treasure_w = "none"

# 5
[[decks.deck]]
is_desert = false
oasis = []
treasure_n = "none"
treasure_e = "none"
treasure_s = "none"
treasure_w = "none"

# 6
[[decks.deck]]
is_desert = false
oasis = []
treasure_n = "none"
treasure_e = "none"
treasure_s = "none"
treasure_w = "none"

# 7
[[decks.deck]]
is_desert = false
oasis = []
treasure_n = "none"
treasure_e = "none"
treasure_s = "none"
treasure_w = "none"

# 8
[[decks.deck]]
is_desert = false
oasis = []
treasure_n = "none"
treasure_e = "none"
treasure_s = "none"
treasure_w = "none"

# 9
[[decks.deck]]
is_desert = false
oasis = []
treasure_n = "none"
treasure_e = "none"
treasure_s = "none"
treasure_w = "none"

# 10
[[decks.deck]]
is_desert = false
oasis = []
treasure_n = "none"
treasure_e = "none"
treasure_s = "none"
treasure_w = "none"

# 11
[[decks.deck]]
is_desert = false
oasis = []
treasure_n = "none"
treasure_e = "none"
treasure_s = "none"
treasure_w = "none"

# 12
[[decks.deck]]
is_desert = false
oasis = []
treasure_n = "none"
treasure_e = "none"
treasure_s = "none"
treasure_w = "none"

# 13
[[decks.deck]]
is_desert = false
oasis = []
treasure_n = "none"
treasure_e = "none"
treasure_s = "none"
treasure_w = "none"

# 14
[[decks.deck]]
is_desert = false
oasis = []
treasure_n = "none"
treasure_e = "none"
treasure_s = "none"
treasure_w = "none"

# 15
[[decks.deck]]
is_desert = false
oasis = []
treasure_n = "none"
treasure_e = "none"
treasure_s = "none"
treasure_w = "none"

# 16
[[decks.deck]]
is_desert = false
oasis = []
treasure_n = "none"
treasure_e = "none"
treasure_s = "none"
treasure_w = "none"

# 17
[[decks.deck]]
is_desert = false
oasis = []
treasure_n = "none"
treasure_e = "none"
treasure_s = "none"
treasure_w = "none"
"#,
    );

    let table = toml::from_str::<toml::Table>(&input).unwrap();
    let entries = conv_table(&table);

    let parsed_config = TilesetConfig::try_from_table(&entries);

    assert!(matches!(parsed_config, Ok(_)));

    let tileset_config = parsed_config.unwrap();

    assert_eq!(tileset_config.deck.len(), 5);
    let deck_one = &tileset_config.deck[0];
    let deck_three = &tileset_config.deck[2];
    let c = &tileset_config.cross.c;
    let n = &tileset_config.cross.n;
    let w = &tileset_config.cross.w;

    assert_eq!(c.is_desert, Some(false));
    assert_eq!(c.oasis, None);

    assert_eq!(n[0].is_desert, Some(false));
    assert_eq!(n[0].oasis, flags(0x8));
    assert_eq!(n[1].oasis, flags(0x2));
    assert_eq!(n[2].oasis, flags(0x8));

    assert_eq!(w[1].is_desert, Some(false));
    assert_eq!(w[0].oasis, None);
    assert_eq!(w[1].oasis, flags(0x41));
    assert_eq!(w[2].oasis, None);

    assert_eq!(deck_one.0[0].is_desert, Some(true));
    assert_eq!(deck_one.0[1].is_desert, Some(false));
    assert_eq!(deck_one.0[0].oasis, flags(0x6));
    assert_eq!(deck_one.0[0].treasure_e, Some(String::from("salt")));
    assert_eq!(deck_one.0[0].treasure_s, Some(String::from("rumors")));
    assert_eq!(deck_one.0[1].oasis, flags(0x1));
    assert_eq!(deck_one.0[2].oasis, flags(0x0));

    assert_eq!(deck_three.0[0].is_desert, Some(true));
    assert_eq!(deck_three.0[1].is_desert, Some(false));
    assert_eq!(deck_three.0[0].oasis, flags(0x0));
    assert_eq!(deck_three.0[1].oasis, flags(0x2));
    assert_eq!(deck_three.0[2].oasis, flags(0x4));
}
