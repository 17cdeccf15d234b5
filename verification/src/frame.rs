//! The frame around every package: one byte that tells the package's kind,
//! one byte that tells how long its body is, and the body.
use vstd::prelude::*;
use vstd::slice::slice_subrange;
use crate::error::CodecError;

verus! {

/// Number of bytes in front of the body.
pub const HEADER_LEN: usize = 2;

/// Most bytes that a body can have: what the header's length byte can say.
pub const MAX_BODY_LEN: usize = 255;

/// The two header bytes.
pub open spec fn header(discriminant: u8, body_length: u8) -> Seq<u8> {
    seq![discriminant, body_length]
}

/// A body with its header in front of it.
pub open spec fn frame(discriminant: u8, body: Seq<u8>) -> Seq<u8>
    recommends
        body.len() <= MAX_BODY_LEN,
{
    header(discriminant, body.len() as u8) + body
}

/// Whether `bytes` start with a whole frame: a header, and as many bytes
/// behind it as the header announces.
pub open spec fn framed(bytes: Seq<u8>) -> bool {
    bytes.len() >= HEADER_LEN && bytes.len() >= HEADER_LEN + bytes[1]
}

/// The discriminant byte of the frame that `bytes` start with.
pub open spec fn frame_discriminant(bytes: Seq<u8>) -> u8
    recommends
        framed(bytes),
{
    bytes[0]
}

/// The body of the frame that `bytes` start with.
pub open spec fn frame_body(bytes: Seq<u8>) -> Seq<u8>
    recommends
        framed(bytes),
{
    bytes.subrange(HEADER_LEN as int, HEADER_LEN + bytes[1])
}

/// A frame announces the length of the body that it holds, is two bytes
/// longer than that body, and gives discriminant and body back, whatever
/// follows it.
pub proof fn lemma_frame(discriminant: u8, body: Seq<u8>, tail: Seq<u8>)
    requires
        body.len() <= MAX_BODY_LEN,
    ensures
        frame(discriminant, body).len() == HEADER_LEN + body.len(),
        frame(discriminant, body)[1] == body.len(),
        framed(frame(discriminant, body) + tail),
        frame_discriminant(frame(discriminant, body) + tail) == discriminant,
        frame_body(frame(discriminant, body) + tail) == body,
{
    assert(frame_body(frame(discriminant, body) + tail) =~= body);
}

/// Appends a header.
pub fn write_header(discriminant: u8, body_length: u8, writer: &mut Vec<u8>)
    ensures
        final(writer)@ == old(writer)@ + header(discriminant, body_length),
{
    writer.push(discriminant);
    writer.push(body_length);
    assert(writer@ =~= old(writer)@ + header(discriminant, body_length));
}

/// Reads the header that `bytes` start with: the discriminant and the
/// announced length of the body. Neither is judged here.
pub fn read_header(bytes: &[u8]) -> (r: Result<(u8, u8), CodecError>)
    ensures
        r == if bytes@.len() >= HEADER_LEN {
            Ok::<(u8, u8), CodecError>((bytes@[0], bytes@[1]))
        } else {
            Err(CodecError::FrameError)
        },
{
    if bytes.len() >= HEADER_LEN {
        Ok((bytes[0], bytes[1]))
    } else {
        Err(CodecError::FrameError)
    }
}

/// Takes the frame that `bytes` start with apart: its discriminant, and its
/// body alone in a buffer of the announced length. What follows the frame is
/// left out.
pub fn read_frame(bytes: &[u8]) -> (r: Result<(u8, &[u8]), CodecError>)
    ensures
        match r {
            Ok((discriminant, body)) => {
                &&& framed(bytes@)
                &&& discriminant == frame_discriminant(bytes@)
                &&& body@ == frame_body(bytes@)
            },
            Err(e) => !framed(bytes@) && e == CodecError::FrameError,
        },
{
    match read_header(bytes) {
        Ok((discriminant, body_length)) => {
            let body_length = body_length as usize;
            if bytes.len() - HEADER_LEN >= body_length {
                Ok((discriminant, slice_subrange(bytes, HEADER_LEN, HEADER_LEN + body_length)))
            } else {
                Err(CodecError::FrameError)
            }
        },
        Err(e) => Err(e),
    }
}

} // verus!
