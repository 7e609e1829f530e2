use vstd::prelude::*;

verus! {

/// The recoverable failure kinds reported by decoding and encoding.
///
/// Decode failures abort the whole-file parse; encode failures abort before
/// any byte reaches the final destination, since writing is buffered.
#[derive(Clone, Copy, Debug, PartialEq, Eq, Structural)]
pub enum SsbhError {
    /// A tag at a dispatch point (the file magic, a version pair, or an
    /// enum code) matches no known alternative.
    MalformedMagic,
    /// The file holds a known format, but not the one the caller asked for.
    InvalidSsbhType,
    /// Computing an absolute byte position overflowed 64 bits.
    OffsetOverflow,
    /// A computed offset cannot be represented in the pointer's declared
    /// on-disk width.
    OffsetTooNarrow,
    /// An attribute descriptor references a vertex-buffer slot other than
    /// 0 or 1.
    UnsupportedBufferIndex,
    /// A read would run past the available bytes, or a string a record
    /// requires is absent.
    Truncated,
}

} // verus!
