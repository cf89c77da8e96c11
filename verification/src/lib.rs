use vstd::prelude::*;

pub mod dsp;
pub mod wav;
pub mod cli;
pub mod frames;
pub mod playback;
