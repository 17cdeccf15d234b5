//! The ways in which decoding a frame can fail.
use vstd::prelude::*;

verus! {

/// Why a byte buffer could not be decoded.
///
/// Encoding has no failure of its own: every body has a wire image of at
/// most 255 bytes, because over-long text is clipped before it is written.
#[derive(Debug, Clone, Copy, PartialEq, Eq, Structural)]
pub enum CodecError {
    /// The input ends before the two header bytes, or before the number of
    /// body bytes that the header announces.
    FrameError,
    /// The header's discriminant belongs to no package of the dialect. The
    /// byte is carried along.
    UnknownDiscriminant(u8),
    /// The body is too short for the package it was announced as, or one of
    /// its fields holds a value outside its range. The package's
    /// discriminant is carried along.
    BodyDecodeError(u8),
}

} // verus!
