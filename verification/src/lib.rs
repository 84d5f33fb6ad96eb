//! ABot game and utility logic: the horse-racing economy, the shared pixel board,
//! drift bottles, nicknames, Minecraft server lists and the small text parsers the
//! chat commands rely on. Every item here carries a contract checked by Verus.

pub mod admin;
pub mod bottle;
pub mod chatlog;
pub mod help;
pub mod horse;
pub mod mcping;
pub mod mydata;
pub mod nickname;
pub mod place;
pub mod rng;
pub mod text;
pub mod words;

use vstd::prelude::*;

verus! {

} // verus!
