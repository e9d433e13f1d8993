//! Why a frame could not be decoded.

use vstd::prelude::*;

verus! {

/// The failures of decoding one frame. A failure concerns that frame only.
#[derive(Clone, Copy, Debug, PartialEq, Eq, Structural)]
pub enum DecodeError {
    /// A field of some layer lies partly or wholly beyond the end of the
    /// buffer.
    TruncatedBuffer,
    /// A bit-packed field holds a value that no header can have: an internet
    /// header length of fewer than five words.
    MalformedField,
}

} // verus!
