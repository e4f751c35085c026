//! Core data model of a tile-laying board game: cardinal directions,
//! bit-packed oasis connection layouts, tile data with rotation, a treasure
//! vocabulary with a small parser, an 11x11 board registry, a placement
//! legality rule, and deck draw sequencing.
pub mod config;
pub mod deck;
pub mod direction;
pub mod entities;
pub mod flags;
pub mod grid;
pub mod input;
pub mod legality;
pub mod player;
pub mod registry;
pub mod scenes;
pub mod text;
pub mod tile;
pub mod treasure;
