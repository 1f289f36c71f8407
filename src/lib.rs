//! Brute-force search for the integer whose MD5 digest matches a target,
//! sequentially or split over interleaved residue classes for parallel workers.
//!
//! The library holds the logic: the decimal encoding of candidates, digest
//! comparison, the scan of one residue class with cooperative cancellation, the
//! first-wins resolution of a race between workers, and a timing wrapper.
//! Spawning threads and printing are left to the caller.

pub mod digest;
pub mod search;
pub mod race;
pub mod timing;
