//! Glicko-2 ratings with fractional rating periods: the verified bookkeeping around the
//! numerical update.
//!
//! The rating update itself works on floating-point values and is supplied by the caller as a
//! closure; this crate stores ratings and pending games, decides when rating periods close,
//! and hands the update exactly the inputs it must see.
pub mod engine;
pub mod error;
pub mod game;
pub mod period;
pub mod scale;
pub mod timed;
pub mod update;
pub mod util;
