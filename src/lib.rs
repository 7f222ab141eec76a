use vstd::prelude::*;

pub mod buffer;
pub mod engine;
pub mod profiles;

verus! {

/// Why a read transaction produced no reading.
#[derive(Debug, Clone, Copy, PartialEq, Eq, Structural)]
pub enum DhtError {
    /// No complete two-word reading arrived before the countdown ran out.
    Timeout,
    /// A reading arrived but its checksum did not match; holds the data word and the checksum word.
    CrcMismatch(u32, u32),
    /// The co-processor's queue broke its protocol; kept for completeness, never produced here.
    ReadError,
}

} // verus!
