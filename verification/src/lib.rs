//! Answers questions about one baseball club's live game, standings and
//! player percentile rankings from the bodies that the upstream feeds return.

pub mod clock;
pub mod command;
pub mod event;
pub mod fetch;
pub mod game;
pub mod html;
pub mod json;
pub mod message;
pub mod order;
pub mod percentile;
pub mod standings;
pub mod text;
