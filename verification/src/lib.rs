//! A fixed-capacity circular buffer ("ring") usable as a FIFO queue between a
//! producer side and a consumer side.
//!
//! The ring stores pointer-sized opaque tokens in a power-of-two slot array and
//! drives it with four monotonically increasing 32-bit counters (producer
//! head/tail, consumer head/tail) that wrap modulo 2^32; slot lookup is a
//! bitwise AND with `size - 1`.  Each side is configured for a single caller or
//! for multiple concurrent callers, and the multi-caller disciplines come in
//! three contention strategies (plain compare-and-swap, relaxed tail sync,
//! head/tail sync).  Every operation is specified against the ring's abstract
//! contents, a sequence of tokens.

pub mod capacity;
pub mod errors;
pub mod flags;
pub mod laws;
pub mod ring;
pub mod wrap;

pub use errors::RingError;
pub use flags::RingConf;
pub use flags::RingFlags;
pub use flags::SyncMode;
pub use ring::Ring;
