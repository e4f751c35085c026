use vstd::prelude::*;

verus! {

/// The four players, by the colour of their pieces.
#[derive(Default, Debug, Clone, Copy, PartialEq, Eq, Structural)]
pub enum PlayerName {
    #[default]
    White,
    Orange,
    Red,
    Blue,
}

impl PlayerName {
    /// The player whose turn follows, in the fixed order
    /// White, Orange, Red, Blue and round again.
    pub open spec fn spec_cycle(player: PlayerName) -> PlayerName {
        match player {
            PlayerName::White => PlayerName::Orange,
            PlayerName::Orange => PlayerName::Red,
            PlayerName::Red => PlayerName::Blue,
            PlayerName::Blue => PlayerName::White,
        }
    }

    pub fn cycle(player: &Self) -> (r: Self)
        ensures
            r == PlayerName::spec_cycle(*player),
    {
        match player {
            Self::White => Self::Orange,
            Self::Orange => Self::Red,
            Self::Red => Self::Blue,
            Self::Blue => Self::White,
        }
    }

    /// The player at a given seat number; seats wrap around modulo 4.
    pub fn from_index(value: u8) -> (r: Self)
        ensures
            value % 4 == 0 ==> r == PlayerName::White,
            value % 4 == 1 ==> r == PlayerName::Orange,
            value % 4 == 2 ==> r == PlayerName::Red,
            value % 4 == 3 ==> r == PlayerName::Blue,
    {
        let rem = value % 4;
        if rem == 0 {
            Self::White
        } else if rem == 1 {
            Self::Orange
        } else if rem == 2 {
            Self::Red
        } else {
            Self::Blue
        }
    }
}

/// The four building heights a player can raise.
#[derive(Default, Debug, Clone, Copy, PartialEq, Eq, Structural)]
pub enum BuildingType {
    #[default]
    Shortest,
    Short,
    Tall,
    Tallest,
}

impl BuildingType {
    /// The building of a given height rank; ranks wrap around modulo 4.
    pub fn from_index(value: u8) -> (r: Self)
        ensures
            value % 4 == 0 ==> r == BuildingType::Shortest,
            value % 4 == 1 ==> r == BuildingType::Short,
            value % 4 == 2 ==> r == BuildingType::Tall,
            value % 4 == 3 ==> r == BuildingType::Tallest,
    {
        let rem = value % 4;
        if rem == 0 {
            Self::Shortest
        } else if rem == 1 {
            Self::Short
        } else if rem == 2 {
            Self::Tall
        } else {
            Self::Tallest
        }
    }

    /// The position of this building in the shortest-to-tallest order.
    pub fn index(&self) -> (r: u8)
        ensures
            self is Shortest ==> r == 0,
            self is Short ==> r == 1,
            self is Tall ==> r == 2,
            self is Tallest ==> r == 3,
    {
        match self {
            Self::Shortest => 0,
            Self::Short => 1,
            Self::Tall => 2,
            Self::Tallest => 3,
        }
    }
}

} // verus!
