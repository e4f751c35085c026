use vstd::prelude::*;

verus! {

/// One of the four tradeable goods a `goods:` treasure can carry.
#[derive(Debug, Clone, Copy, PartialEq, Eq, Structural)]
pub enum Good {
    Incense,
    Myrrh,
    Salt,
    Gems,
}

/// A treasure marker attached to one edge of a tile, drawn from a closed
/// vocabulary; `NoTreasure` stands for no treasure on that edge.
#[derive(Debug, Clone, Copy, PartialEq, Eq, Structural)]
pub enum TreasureKind {
    Water,
    DoubleWater,
    Goods(Good),
    Camels,
    Rumors,
    NoTreasure,
}

/// Why a treasure string failed to parse; each variant carries the
/// offending token (or the expected and received argument counts).
#[derive(Debug, Clone, PartialEq, Eq)]
pub enum TreasureKindParseError {
    ArgumentCount(String, usize),
    ParseTreasure(String),
    ParseGoods(String),
}

/// ASCII lower-casing of one character; other characters are unchanged.
pub open spec fn spec_lower_char(c: char) -> char {
    if 'A' <= c && c <= 'Z' {
        (((c as u8) + 32) as u8) as char
    } else {
        c
    }
}

/// ASCII lower-casing of a whole character sequence.
pub open spec fn spec_lower(s: Seq<char>) -> Seq<char> {
    s.map_values(|c: char| spec_lower_char(c))
}

/// How many colons a character sequence holds.
pub open spec fn spec_colon_count(s: Seq<char>) -> nat
    decreases s.len(),
{
    if s.len() == 0 {
        0
    } else {
        spec_colon_count(s.drop_last()) + if s.last() == ':' {
            1nat
        } else {
            0nat
        }
    }
}

/// Position of the first colon, or the length of the sequence if none.
pub open spec fn spec_first_colon(s: Seq<char>) -> int
    decreases s.len(),
{
    if s.len() == 0 {
        0
    } else if s[0] == ':' {
        0
    } else {
        1 + spec_first_colon(s.subrange(1, s.len() as int))
    }
}

/// The treasure kind a single lower-cased token names, if any; `goods`
/// is not a complete name on its own and is handled separately.
pub open spec fn spec_kind_of_token(t: Seq<char>) -> Option<TreasureKind> {
    if t == "water"@ {
        Option::Some(TreasureKind::Water)
    } else if t == "double_water"@ {
        Option::Some(TreasureKind::DoubleWater)
    } else if t == "camels"@ {
        Option::Some(TreasureKind::Camels)
    } else if t == "rumors"@ {
        Option::Some(TreasureKind::Rumors)
    } else if t == "none"@ || t.len() == 0 {
        Option::Some(TreasureKind::NoTreasure)
    } else {
        Option::None
    }
}

/// The good a single lower-cased token names, if any.
pub open spec fn spec_good_of_token(t: Seq<char>) -> Option<Good> {
    if t == "incense"@ {
        Option::Some(Good::Incense)
    } else if t == "myrrh"@ {
        Option::Some(Good::Myrrh)
    } else if t == "salt"@ {
        Option::Some(Good::Salt)
    } else if t == "gems"@ {
        Option::Some(Good::Gems)
    } else {
        Option::None
    }
}

/// What `TreasureKind::parse` returns on input `s`: the input is
/// lower-cased and read as one or two colon-separated tokens; more than
/// two tokens, an unknown kind, an unknown good, or a bare `goods` each
/// give their own error, carrying the offending token or the counts.
pub open spec fn spec_parse_matches(
    s: Seq<char>,
    r: Result<TreasureKind, TreasureKindParseError>,
) -> bool {
    let l = spec_lower(s);
    let cc = spec_colon_count(l);
    if cc >= 2 {
        &&& r matches Err(TreasureKindParseError::ArgumentCount(e, n))
        &&& e@ == "1 to 2"@
        &&& n as nat == if cc + 1 <= usize::MAX {
            cc + 1
        } else {
            usize::MAX as nat
        }
    } else {
        let i = spec_first_colon(l);
        let tok0 = if cc == 0 {
            l
        } else {
            l.subrange(0, i)
        };
        if tok0 == "goods"@ {
            if cc == 0 {
                &&& r matches Err(TreasureKindParseError::ArgumentCount(e, n))
                &&& e@ == "2"@
                &&& n == 1usize
            } else {
                let tok1 = l.subrange(i + 1, l.len() as int);
                match spec_good_of_token(tok1) {
                    Option::Some(g) => r == Ok::<TreasureKind, TreasureKindParseError>(
                        TreasureKind::Goods(g),
                    ),
                    Option::None => {
                        &&& r matches Err(TreasureKindParseError::ParseGoods(t))
                        &&& t@ == tok1
                    },
                }
            }
        } else {
            match spec_kind_of_token(tok0) {
                Option::Some(k) => r == Ok::<TreasureKind, TreasureKindParseError>(k),
                Option::None => {
                    &&& r matches Err(TreasureKindParseError::ParseTreasure(t))
                    &&& t@ == tok0
                },
            }
        }
    }
}

/// A sequence without colons has colon count zero, and the other way
/// round.
proof fn lemma_colon_count_zero(s: Seq<char>)
    requires
        forall|k: int| 0 <= k < s.len() ==> s[k] != ':',
    ensures
        spec_colon_count(s) == 0,
    decreases s.len(),
{
    if s.len() > 0 {
        lemma_colon_count_zero(s.drop_last());
    }
}

/// A sequence whose only colon sits at position `j` has colon count one.
proof fn lemma_colon_count_single(s: Seq<char>, j: int)
    requires
        0 <= j < s.len(),
        s[j] == ':',
        forall|k: int| 0 <= k < s.len() && k != j ==> s[k] != ':',
    ensures
        spec_colon_count(s) == 1,
    decreases s.len(),
{
    if j == s.len() - 1 {
        lemma_colon_count_zero(s.drop_last());
    } else {
        lemma_colon_count_single(s.drop_last(), j);
    }
}

/// The colon count never exceeds the length.
proof fn lemma_colon_count_le_len(s: Seq<char>)
    ensures
        spec_colon_count(s) <= s.len(),
    decreases s.len(),
{
    if s.len() > 0 {
        lemma_colon_count_le_len(s.drop_last());
    }
}

/// A colon at `j` with none before it is the first colon.
proof fn lemma_first_colon_at(s: Seq<char>, j: int)
    requires
        0 <= j < s.len(),
        s[j] == ':',
        forall|k: int| 0 <= k < j ==> s[k] != ':',
    ensures
        spec_first_colon(s) == j,
    decreases s.len(),
{
    if j > 0 {
        lemma_first_colon_at(s.subrange(1, s.len() as int), j - 1);
    }
}

/// Relies on `String::push`: appends one character to the string.
#[verifier::external_body]
fn push_char(s: &mut String, c: char)
    ensures
        final(s)@ == old(s)@.push(c),
{
    s.push(c)
}

/// Builds an owned string out of a vector of characters.
fn chars_to_string(v: &Vec<char>) -> (r: String)
    ensures
        r@ == v@,
{
    let mut out = String::new();
    let mut i: usize = 0;
    while i < v.len()
        invariant
            i <= v.len(),
            out@ == v@.take(i as int),
        decreases v.len() - i,
    {
        push_char(&mut out, v[i]);
        proof {
            assert(v@.take(i as int).push(v@[i as int]) =~= v@.take(i + 1));
        }
        i = i + 1;
    }
    proof {
        assert(v@.take(v@.len() as int) =~= v@);
    }
    out
}

/// Whether a vector of characters spells the same text as a string slice.
fn eq_chars(v: &Vec<char>, s: &str) -> (r: bool)
    ensures
        r == (v@ == s@),
{
    let n = s.unicode_len();
    if v.len() != n {
        proof {
            if v@ == s@ {
                assert(v@.len() == s@.len());
            }
        }
        return false;
    }
    let mut i: usize = 0;
    while i < n
        invariant
            i <= n,
            v@.len() == n,
            s@.len() == n,
            forall|k: int| 0 <= k < i ==> v@[k] == s@[k],
        decreases n - i,
    {
        if v[i] != s.get_char(i) {
            return false;
        }
        i = i + 1;
    }
    proof {
        assert(v@ =~= s@);
    }
    true
}

/// A part of a character vector, copied out as its own vector.
fn sub_chars(v: &Vec<char>, from: usize, to: usize) -> (r: Vec<char>)
    requires
        from <= to <= v@.len(),
    ensures
        r@ == v@.subrange(from as int, to as int),
{
    let mut out: Vec<char> = Vec::new();
    let mut i: usize = from;
    while i < to
        invariant
            from <= i <= to <= v@.len(),
            out@ == v@.subrange(from as int, i as int),
        decreases to - i,
    {
        out.push(v[i]);
        proof {
            assert(v@.subrange(from as int, i as int).push(v@[i as int]) =~= v@.subrange(
                from as int,
                i + 1,
            ));
        }
        i = i + 1;
    }
    out
}

/// ASCII lower-casing of one character.
fn lower_char(c: char) -> (r: char)
    ensures
        r == spec_lower_char(c),
{
    if 'A' <= c && c <= 'Z' {
        ((c as u8) + 32) as char
    } else {
        c
    }
}

/// The characters of a string slice, ASCII lower-cased, as a vector.
fn lower_chars(s: &str) -> (r: Vec<char>)
    ensures
        r@ == spec_lower(s@),
{
    let n = s.unicode_len();
    let mut out: Vec<char> = Vec::new();
    let mut i: usize = 0;
    while i < n
        invariant
            i <= n,
            s@.len() == n,
            out@ == spec_lower(s@).take(i as int),
        decreases n - i,
    {
        out.push(lower_char(s.get_char(i)));
        proof {
            assert(spec_lower(s@).take(i as int).push(spec_lower(s@)[i as int]) =~= spec_lower(
                s@,
            ).take(i + 1));
        }
        i = i + 1;
    }
    proof {
        assert(spec_lower(s@).take(n as int) =~= spec_lower(s@));
    }
    out
}

impl TreasureKind {
    /// Parses a treasure string: lower-cased, split on `:` into one or two
    /// tokens, a bare kind name or `goods:<good>`; every failure carries
    /// the offending token or the token count.
    pub fn parse(s: &str) -> (r: Result<TreasureKind, TreasureKindParseError>)
        ensures
            spec_parse_matches(s@, r),
    {
        let ls = lower_chars(s);
        let ghost l = spec_lower(s@);
        let n = ls.len();

        // Count the colons and remember where the first one sits.
        let mut cnt: usize = 0;
        let mut fc: Option<usize> = Option::None;
        let mut j: usize = 0;
        while j < n
            invariant
                j <= n,
                ls@ == l,
                n == l.len(),
                cnt == spec_colon_count(l.take(j as int)),
                cnt <= j,
                match fc {
                    Option::Some(p) => p < j && l[p as int] == ':' && (forall|k: int|
                        0 <= k < p ==> l[k] != ':'),
                    Option::None => forall|k: int| 0 <= k < j ==> l[k] != ':',
                },
            decreases n - j,
        {
            if ls[j] == ':' {
                cnt = cnt + 1;
                if fc.is_none() {
                    fc = Option::Some(j);
                }
            }
            proof {
                assert(l.take(j + 1).drop_last() =~= l.take(j as int));
                lemma_colon_count_le_len(l.take(j as int));
            }
            j = j + 1;
        }
        proof {
            assert(l.take(n as int) =~= l);
        }

        if cnt >= 2 {
            return Err(TreasureKindParseError::ArgumentCount(
                String::from_str("1 to 2"),
                cnt.saturating_add(1),
            ));
        }

        // At most one colon: the first token, and the second if present.
        let tok0: Vec<char>;
        let mut tok1: Vec<char> = Vec::new();
        if cnt == 0 {
            tok0 = ls;
        } else {
            let p = match fc {
                Option::Some(p) => p,
                Option::None => {
                    // With one colon counted, a first colon was recorded.
                    proof {
                        lemma_colon_count_zero(l);
                        assert(false);
                    }
                    0
                },
            };
            proof {
                lemma_first_colon_at(l, p as int);
            }
            tok0 = sub_chars(&ls, 0, p);
            tok1 = sub_chars(&ls, p + 1, n);
        }

        if eq_chars(&tok0, "goods") {
            if cnt == 0 {
                Err(TreasureKindParseError::ArgumentCount(String::from_str("2"), 1))
            } else if eq_chars(&tok1, "incense") {
                Ok(TreasureKind::Goods(Good::Incense))
            } else if eq_chars(&tok1, "myrrh") {
                Ok(TreasureKind::Goods(Good::Myrrh))
            } else if eq_chars(&tok1, "salt") {
                Ok(TreasureKind::Goods(Good::Salt))
            } else if eq_chars(&tok1, "gems") {
                Ok(TreasureKind::Goods(Good::Gems))
            } else {
                Err(TreasureKindParseError::ParseGoods(chars_to_string(&tok1)))
            }
        } else if eq_chars(&tok0, "water") {
            Ok(TreasureKind::Water)
        } else if eq_chars(&tok0, "double_water") {
            Ok(TreasureKind::DoubleWater)
        } else if eq_chars(&tok0, "camels") {
            Ok(TreasureKind::Camels)
        } else if eq_chars(&tok0, "rumors") {
            Ok(TreasureKind::Rumors)
        } else if eq_chars(&tok0, "none") || tok0.len() == 0 {
            Ok(TreasureKind::NoTreasure)
        } else {
            Err(TreasureKindParseError::ParseTreasure(chars_to_string(&tok0)))
        }
    }
}

impl TreasureKind {
    /// The canonical configuration spelling of a treasure kind: the one
    /// string that parses back to it.
    pub open spec fn spec_canonical_name(self) -> Seq<char> {
        match self {
            TreasureKind::Water => "water"@,
            TreasureKind::DoubleWater => "double_water"@,
            TreasureKind::Camels => "camels"@,
            TreasureKind::Rumors => "rumors"@,
            TreasureKind::NoTreasure => "none"@,
            TreasureKind::Goods(g) => match g {
                Good::Incense => "goods:incense"@,
                Good::Myrrh => "goods:myrrh"@,
                Good::Salt => "goods:salt"@,
                Good::Gems => "goods:gems"@,
            },
        }
    }

    /// Writes the canonical configuration spelling of this kind.
    pub fn to_config_string(&self) -> (r: String)
        ensures
            r@ == self.spec_canonical_name(),
    {
        match self {
            TreasureKind::Water => String::from_str("water"),
            TreasureKind::DoubleWater => String::from_str("double_water"),
            TreasureKind::Camels => String::from_str("camels"),
            TreasureKind::Rumors => String::from_str("rumors"),
            TreasureKind::NoTreasure => String::from_str("none"),
            TreasureKind::Goods(g) => match g {
                Good::Incense => String::from_str("goods:incense"),
                Good::Myrrh => String::from_str("goods:myrrh"),
                Good::Salt => String::from_str("goods:salt"),
                Good::Gems => String::from_str("goods:gems"),
            },
        }
    }

    /// The human-readable label shown beside a treasure of this kind.
    pub fn get_label_text(&self) -> (r: &'static str)
        ensures
            self is Water ==> r@ == "Water"@,
            self is DoubleWater ==> r@ == "Water x2"@,
            self is Camels ==> r@ == "Camels"@,
            self is Rumors ==> r@ == "Rumors"@,
            self is NoTreasure ==> r@ == "No treasure"@,
            self matches TreasureKind::Goods(g) ==> r@ == (match g {
                Good::Incense => "Incense"@,
                Good::Myrrh => "Myrrh"@,
                Good::Salt => "Salt"@,
                Good::Gems => "Gems"@,
            }),
    {
        match self {
            TreasureKind::Water => "Water",
            TreasureKind::DoubleWater => "Water x2",
            TreasureKind::Camels => "Camels",
            TreasureKind::Rumors => "Rumors",
            TreasureKind::Goods(good) => match good {
                Good::Incense => "Incense",
                Good::Myrrh => "Myrrh",
                Good::Salt => "Salt",
                Good::Gems => "Gems",
            },
            TreasureKind::NoTreasure => "No treasure",
        }
    }
}

/// The canonical name of a treasure kind is already lower-case and, except
/// for the goods, colon-free.
proof fn lemma_canonical_lower(k: TreasureKind)
    ensures
        spec_lower(k.spec_canonical_name()) == k.spec_canonical_name(),
{
    reveal_strlit("water");
    reveal_strlit("double_water");
    reveal_strlit("camels");
    reveal_strlit("rumors");
    reveal_strlit("none");
    reveal_strlit("goods:incense");
    reveal_strlit("goods:myrrh");
    reveal_strlit("goods:salt");
    reveal_strlit("goods:gems");
    let s = k.spec_canonical_name();
    assert forall|i: int| 0 <= i < s.len() implies spec_lower_char(s[i]) == s[i] by {
        assert(!('A' <= s[i] && s[i] <= 'Z'));
    }
    assert(spec_lower(s) =~= s);
}

/// Parsing the canonical name of any treasure kind yields that kind back:
/// the string written by `to_config_string` is accepted by `parse`, and
/// the parsed kind equals the one written.
pub proof fn lemma_treasure_parse_round_trip(
    k: TreasureKind,
    r: Result<TreasureKind, TreasureKindParseError>,
)
    requires
        spec_parse_matches(k.spec_canonical_name(), r),
    ensures
        r == Ok::<TreasureKind, TreasureKindParseError>(k),
{
    reveal_strlit("water");
    reveal_strlit("double_water");
    reveal_strlit("camels");
    reveal_strlit("rumors");
    reveal_strlit("none");
    reveal_strlit("goods");
    reveal_strlit("incense");
    reveal_strlit("myrrh");
    reveal_strlit("salt");
    reveal_strlit("gems");
    reveal_strlit("goods:incense");
    reveal_strlit("goods:myrrh");
    reveal_strlit("goods:salt");
    reveal_strlit("goods:gems");
    lemma_canonical_lower(k);
    let s = k.spec_canonical_name();
    let l = spec_lower(s);
    assert(l == s);
    match k {
        TreasureKind::Goods(g) => {
            assert(s[5] == ':');
            assert(forall|i: int| 0 <= i < s.len() && i != 5 ==> s[i] != ':');
            lemma_colon_count_single(s, 5);
            lemma_first_colon_at(s, 5);
            assert(s.subrange(0, 5) =~= "goods"@);
            let tok1 = l.subrange(6, l.len() as int);
            match g {
                Good::Incense => {
                    assert(s.subrange(6, s.len() as int) =~= "incense"@);
                },
                Good::Myrrh => {
                    assert(s.subrange(6, s.len() as int) =~= "myrrh"@);
                },
                Good::Salt => {
                    assert(s.subrange(6, s.len() as int) =~= "salt"@);
                },
                Good::Gems => {
                    assert(s.subrange(6, s.len() as int) =~= "gems"@);
                    assert("gems"@[0] != "salt"@[0]);
                },
            }
        },
        _ => {
            assert(forall|i: int| 0 <= i < s.len() ==> s[i] != ':');
            lemma_colon_count_zero(s);
        },
    }
}

/// Whether a treasure string parses at all: at most one colon, and the
/// tokens name a known kind (and, after `goods`, a known good).
pub open spec fn spec_parse_ok(s: Seq<char>) -> bool {
    let l = spec_lower(s);
    let cc = spec_colon_count(l);
    let i = spec_first_colon(l);
    let tok0 = if cc == 0 {
        l
    } else {
        l.subrange(0, i)
    };
    &&& cc < 2
    &&& if tok0 == "goods"@ {
        cc == 1 && spec_good_of_token(l.subrange(i + 1, l.len() as int)) is Some
    } else {
        spec_kind_of_token(tok0) is Some
    }
}

/// A parse outcome is a success exactly on the strings that parse.
pub proof fn lemma_parse_ok(s: Seq<char>, r: Result<TreasureKind, TreasureKindParseError>)
    requires
        spec_parse_matches(s, r),
    ensures
        r is Ok <==> spec_parse_ok(s),
{
}

} // verus!
