//! Playback core of a terminal video player: fitting frames to the terminal,
//! planning a GPU resample, laying frames out as half-block glyphs and pacing
//! playback against the wall clock.

pub mod filter;
pub mod geometry;
pub mod playback;
pub mod probe;
pub mod render;
pub mod resample;
