//! A small farm economy: a purse that gates the buying of pigs, timers that
//! age each pig and make it wander, and a frame step that sells every pig
//! whose time is up.
//!
//! Money is counted in cents, time in nanoseconds and positions in
//! thousandths of a world unit, so every rule is stated over integers.

pub mod input;
pub mod laws;
pub mod money;
pub mod parent;
pub mod pig;
pub mod player;
pub mod plugin;
pub mod random;
pub mod timer;
pub mod world;
