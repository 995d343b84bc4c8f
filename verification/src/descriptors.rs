//! The two record shapes that cross the boundary, and the error kinds a
//! refused call reports.

use vstd::prelude::*;

verus! {

/// Bytes handed in by the caller: either raw RGBA8 pixel rows of the declared
/// dimensions (for encode and resize) or an encoded file blob (for decode,
/// which ignores the declared dimensions).
pub struct ImageData {
    pub width: u32,
    pub height: u32,
    pub data: Vec<u8>,
}

/// Bytes handed back to the caller: a freshly allocated buffer whose
/// ownership transfers with the return value.
pub struct ImageBoxData {
    pub width: u32,
    pub height: u32,
    pub data: Vec<u8>,
}

/// Why an operation refused its input instead of returning a buffer.
#[derive(Clone, Copy, Debug, PartialEq, Eq, Structural)]
pub enum CodecError {
    /// The byte count does not match the declared dimensions, or a dimension
    /// that must be positive is zero.
    InvalidDimensions,
    /// The codec could not parse or serialize the bytes.
    UnsupportedOrCorruptFormat,
    /// The requested buffer cannot be addressed on this machine.
    AllocationFailure,
}

impl ImageData {
    /// The buffer holds exactly one RGBA8 pixel (four bytes) for each cell of
    /// the declared width-by-height grid.
    pub open spec fn is_rgba8(&self) -> bool {
        self.data@.len() == self.width * self.height * 4
    }
}

impl ImageBoxData {
    /// The buffer holds exactly one RGBA8 pixel (four bytes) for each cell of
    /// the declared width-by-height grid.
    pub open spec fn is_rgba8(&self) -> bool {
        self.data@.len() == self.width * self.height * 4
    }
}

} // verus!
