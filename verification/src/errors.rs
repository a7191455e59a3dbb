//! Error kinds of the decoder. Every failure aborts the whole decode; there
//! is no partial result and no recovery.

use vstd::prelude::*;

verus! {

/// Why a decode attempt was rejected.
#[derive(Debug, Clone, Copy, PartialEq, Eq, Structural)]
pub enum Error {
    /// The buffer is shorter than a required fixed region, or a computed
    /// payload length is negative or exceeds the payload capacity.
    InvalidSize,
    /// The declared total length does not equal the buffer's actual length.
    LengthCheckFail,
    /// The wrapping byte sum over the tail of the buffer does not equal the
    /// declared checksum.
    ChecksumMismatch,
    /// Offset-table entries of consecutive packages are not strictly
    /// increasing.
    InvalidOffset,
}

} // verus!
