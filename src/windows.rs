//! Window ids of the standard layout; a window's id is its position in
//! `ScoreboardLayout::all_windows`.
use vstd::prelude::*;

verus! {

pub const HOME_NAME: u8 = 0;

pub const HOME_SCORE: u8 = 1;

pub const AWAY_NAME: u8 = 2;

pub const AWAY_SCORE: u8 = 3;

pub const TIMER: u8 = 4;

} // verus!
