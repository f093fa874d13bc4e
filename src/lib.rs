//! Rules of a two-player game of noughts and crosses on a three by three grid.
//!
//! `logic` holds the value-type engine: a `Game` is replaced by a new one on
//! each accepted move. `board_data` holds the same rules kept in a single
//! value that is updated in place.

pub mod logic;
pub mod board_data;
