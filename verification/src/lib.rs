//! The verified core of a launcher for the factory game: the game package and
//! its install, the checksum cache, 7-Zip's output, starting the game through
//! Wine, the launcher background, and the repair of old configurations.
use vstd::prelude::*;

pub mod background;
pub mod checksum;
pub mod cli;
pub mod config;
pub mod game;
pub mod hashing;
pub mod install;
pub mod package;
pub mod paths;
pub mod sevenzip;
pub mod text;

verus! {

} // verus!
