//! Decoding of the non-standard UTF-8 variants met in the wild: CESU-8
//! surrogate pairs and the two-byte Java encoding of U+0000, mixed freely
//! with ordinary UTF-8.

pub mod std_text;
pub mod grammar;
pub mod utf8_variants;
pub mod mojibake;
pub mod forms;
pub mod laws;
pub mod fixer_config;
