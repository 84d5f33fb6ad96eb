//! The horse-racing game: constants and enums, the pure game rules, and the race helpers.

pub mod care;
pub mod consts;
pub mod logic;
pub mod play;
pub mod pvp;
pub mod race;
pub mod show;
