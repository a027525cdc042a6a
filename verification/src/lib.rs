//! Transliteration of decoded phonetic sounds into Cyrillic text.
//!
//! A conversion runs in two steps. The reducer maps every sound to one
//! phoneme of a small inventory, doubling long sounds. The renderer then
//! spells the phoneme sequence, choosing the letters of each position from
//! the phoneme there and its two direct neighbours.

pub mod phoneme;
pub mod reducer;
pub mod renderer;
pub mod sound;
pub mod ru;
