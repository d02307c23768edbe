//! Compression of short strings with a fixed codebook of common English and
//! markup fragments.
//!
//! `compress` replaces the longest codebook entry found at each position by its
//! one-byte code and carries the other bytes in literal tokens; `decompress`
//! replays the tokens.  `decompress(compress(b))` gives `b` back for every `b`
//! (`laws::lemma_round_trip`).
pub mod decode;
pub mod dictionary;
pub mod encode;
pub mod laws;

pub use decode::{decompress, DecompressError};
pub use encode::compress;
