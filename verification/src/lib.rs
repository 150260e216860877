//! The rules of a small top-down gardening game, without the engine around
//! them: how the player moves and is animated, how plants are bought, grow
//! and pay out.
//!
//! Every quantity is a whole number, so that each rule is exact:
//! - time in nanoseconds,
//! - money in hundredths of a currency unit,
//! - positions in billionths of a world unit, so that a speed of one world
//!   unit per second is one step per nanosecond.
//!
//! Timers are `bevy::time::Timer`s and chance comes from `rand`; the modules
//! `countdown` and `chance` say what is taken on trust about them.

pub mod chance;
pub mod countdown;
pub mod plant;
pub mod player;
pub mod position;
