//! What holds of every dialect: statements that tie encoding, decoding and
//! the checked downcasts together.
use vstd::prelude::*;
use crate::centralex::Centralex;
use crate::client::Client;
use crate::error::CodecError;
use crate::frame::{frame, frame_body, frame_discriminant, framed, lemma_frame, HEADER_LEN};
use crate::server::Server;
use crate::{decoding, encoding, Class, Dialect, PackageBody};

verus! {

/// Round trip. A package whose texts fit their fields is decoded from its
/// own frame as the package it was, whatever bytes follow the frame.
pub proof fn lemma_round_trip<C: Dialect>(union: <C::Union as View>::V, tail: Seq<u8>)
    requires
        C::round_trips(union),
    ensures
        decoding::<C>(encoding::<C>(union) + tail) == Ok::<<C::Union as View>::V, CodecError>(
            union,
        ),
{
    let class = C::class_of(union);
    let wire = C::body_wire(union);
    C::lemma_body_wire_len(union);
    lemma_frame(class.discriminant(), wire, tail);
    C::lemma_discriminant(class);
    C::lemma_body_round_trip(union, Seq::empty());
    assert(wire + Seq::<u8>::empty() =~= wire);
}

/// Round trip of one body. The frame that a body writes for itself is a
/// whole frame of the body's own kind, and the body is read back from it,
/// whatever bytes follow the frame.
pub proof fn lemma_probe_round_trip<P: PackageBody>(value: P::V, tail: Seq<u8>)
    requires
        P::round_trips(value),
    ensures
        ({
            let bytes = frame(P::variant().discriminant(), P::wire(value)) + tail;
            &&& framed(bytes)
            &&& <P::Class as Class>::from_discriminant(frame_discriminant(bytes)) == Some(
                P::variant(),
            )
            &&& P::parse(frame_body(bytes)) == Some(value)
        }),
{
    P::lemma_wire_len(value);
    lemma_frame(P::variant().discriminant(), P::wire(value), tail);
    <P::Class as Class>::lemma_discriminant(P::variant());
    P::lemma_round_trip(value, Seq::empty());
    assert(P::wire(value) + Seq::<u8>::empty() =~= P::wire(value));
}

/// Header fidelity. The frame of a package starts with the package's
/// discriminant and the length of its body, holds the body behind them, and
/// is two bytes longer than the body.
pub proof fn lemma_header_fidelity<C: Dialect>(union: <C::Union as View>::V)
    ensures
        C::body_wire(union).len() <= 255,
        encoding::<C>(union).len() == HEADER_LEN + C::body_wire(union).len(),
        encoding::<C>(union)[0] == C::class_of(union).discriminant(),
        encoding::<C>(union)[1] == C::body_wire(union).len(),
        encoding::<C>(union).len() == HEADER_LEN + encoding::<C>(union)[1],
        encoding::<C>(union).subrange(HEADER_LEN as int, encoding::<C>(union).len() as int)
            == C::body_wire(union),
{
    C::lemma_body_wire_len(union);
    lemma_frame(C::class_of(union).discriminant(), C::body_wire(union), Seq::empty());
    assert(encoding::<C>(union).subrange(HEADER_LEN as int, encoding::<C>(union).len() as int)
        =~= C::body_wire(union));
}

/// Downcast safety. A package that was made from a body of one kind is of
/// that kind, gives that body back, and holds no body of any other kind of
/// its dialect.
pub proof fn lemma_downcast_safety<P: PackageBody, Q: PackageBody<Class = P::Class>>(value: Q::V)
    ensures
        <Q::Class as Class>::class_of(Q::inject(value)) == Q::variant(),
        Q::project(Q::inject(value)) == Some(value),
        P::variant() != Q::variant() ==> P::project(Q::inject(value)) is None,
{
    Q::lemma_inject(value);
    Q::lemma_project(Q::inject(value));
    P::lemma_project(Q::inject(value));
}

/// A package holds a body of a given type exactly when it is of that type's
/// kind: judging by the kind and judging by the body itself agree.
pub proof fn lemma_kind_tells_type<P: PackageBody>(union: <<P::Class as Class>::Union as View>::V)
    ensures
        P::project(union) is Some <==> <P::Class as Class>::class_of(union) == P::variant(),
{
    P::lemma_project(union);
}

/// Discriminant exhaustiveness. A whole frame whose discriminant is none of
/// the dialect's is an unknown discriminant, whatever its body holds.
pub proof fn lemma_unknown_discriminant<C: Dialect>(bytes: Seq<u8>)
    requires
        framed(bytes),
        C::from_discriminant(frame_discriminant(bytes)) is None,
    ensures
        decoding::<C>(bytes) == Err::<<C::Union as View>::V, CodecError>(
            CodecError::UnknownDiscriminant(frame_discriminant(bytes)),
        ),
{
}

/// A buffer that does not hold a whole frame is a frame error, whatever its
/// first byte.
pub proof fn lemma_short_frame<C: Dialect>(bytes: Seq<u8>)
    requires
        !framed(bytes),
    ensures
        decoding::<C>(bytes) == Err::<<C::Union as View>::V, CodecError>(CodecError::FrameError),
{
}

/// What decoding gives is of the kind that the frame's discriminant names.
pub proof fn lemma_decoded_kind<C: Dialect>(bytes: Seq<u8>)
    ensures
        decoding::<C>(bytes) matches Ok(union) ==> C::class_of(union).discriminant()
            == frame_discriminant(bytes),
{
    if framed(bytes) {
        C::lemma_from_discriminant(frame_discriminant(bytes));
        if let Some(class) = C::from_discriminant(frame_discriminant(bytes)) {
            C::lemma_parse_body_class(class, frame_body(bytes));
        }
    }
}

/// The discriminants of the client dialect are 0, 3 and 4.
pub proof fn lemma_client_discriminants(byte: u8)
    ensures
        Client::from_discriminant(byte) is Some <==> byte == 0x00 || byte == 0x03 || byte == 0x04,
{
}

/// The discriminants of the server dialect are 1 to 10, and 255.
pub proof fn lemma_server_discriminants(byte: u8)
    ensures
        Server::from_discriminant(byte) is Some <==> 0x01 <= byte <= 0x0A || byte == 0xFF,
{
}

/// The discriminants of the centralex dialect are 0, 3 and 4, and 0x81 to
/// 0x84.
pub proof fn lemma_centralex_discriminants(byte: u8)
    ensures
        Centralex::from_discriminant(byte) is Some <==> byte == 0x00 || byte == 0x03 || byte
            == 0x04 || 0x81 <= byte <= 0x84,
{
}

} // verus!
