//! A verified core for a command-line client of a game-statistics REST API:
//! kebab-case validation and text-case conversion, a fixed card catalog with
//! name-based resolution, and field extraction from the JSON-like player
//! documents that the API returns.
pub mod api;
pub mod cards;
pub mod convert;
pub mod json;
pub mod numfmt;
pub mod player;
pub mod util;
