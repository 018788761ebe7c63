//! A terminal raw-input loop: the control code of a key, the classification
//! and reporting of input bytes, the loop that stops on Ctrl-C, and the
//! discipline that takes the terminal's raw mode once and gives it back once.
use vstd::prelude::*;

pub mod classify;
pub mod error;
pub mod input_loop;
pub mod keys;
pub mod terminal;

verus! {

} // verus!
