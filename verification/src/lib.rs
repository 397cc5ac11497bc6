//! Engine of a terminal client for three daily word puzzles: a five-letter
//! guessing game, a word-grouping game and a hidden-word game.
//!
//! The crate holds the puzzle data model, the scoring rules of each game and
//! the transitions of a session (typing, submitting, switching tab or date,
//! looking a puzzle up in the cache). Drawing, the network and the disk are
//! left to the program around it, which hands plain values in and out.

pub mod tabs;
pub mod text;
pub mod score;
pub mod json;
pub mod puzzle;
pub mod group;
pub mod find;
pub mod date;
pub mod app;
pub mod describe;
pub mod submit;
pub mod fetch;
pub mod screen;
pub mod events;
pub mod laws;
