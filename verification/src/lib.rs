//! A sports match modelled as a timeline of timestamped score snapshots.
//!
//! The `generator` module produces a timeline by a biased random walk in
//! (offset, score) space; the `query` module answers "what was the score
//! differential at offset T?" by binary search with explicit clamping at
//! both ends of the recorded range.

pub mod generator;
pub mod query;
pub mod timeline;
