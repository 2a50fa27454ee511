//! The logic of a small handheld game console: the syscall protocol between games
//! and the firmware, the firmware's decisions on each request, the SD card game
//! menu, and two games (pong and a demo), each written as functions from state and
//! buttons to the next state and the effects to carry out.
use vstd::prelude::*;

pub mod action;
pub mod bytes;
pub mod cool_game;
pub mod firmware;
pub mod loader;
pub mod pong;
pub mod pong_laws;
pub mod syscall;

verus! {

} // verus!
