//! Codec for the packages of the i-Telex network: the frames that teletype
//! clients, directory servers and centralex gateways exchange.
//!
//! Every frame is two header bytes, the package's discriminant and the
//! length of its body, and then the body. A dialect is a closed set of
//! package bodies that share one space of discriminants; [`Package`] holds
//! any one body of a dialect and gives it back by a checked downcast.
//!
//! The codec works on bytes in memory: encoding appends to a `Vec<u8>`,
//! decoding reads a slice that starts with a frame. [`codec`] and [`frame`]
//! hold the encodings of fields and headers, [`client`], [`server`] and
//! [`centralex`] the three dialects, [`render`] the pieces of the diagnostic
//! text, and [`laws`] what holds of all dialects.
use vstd::prelude::*;
use vstd::std_specs::convert::FromSpecImpl;
use vstd::string::StringExecFns;
use crate::error::CodecError;
use crate::frame::{frame, frame_body, frame_discriminant, framed, read_frame, write_header};

pub mod addr;
pub mod centralex;
pub mod client;
pub mod codec;
pub mod error;
pub mod frame;
pub mod laws;
pub mod render;
pub mod server;

verus! {

/// A decoding outcome, with the value that came out taken by its view.
pub open spec fn outcome_view<T: View>(r: Result<T, CodecError>) -> Result<T::V, CodecError> {
    match r {
        Ok(value) => Ok(value@),
        Err(e) => Err(e),
    }
}

/// The outcome of probing for one kind of package, with the value that came
/// out taken by its view.
pub open spec fn probe_view<T: View>(r: Result<Option<T>, CodecError>) -> Result<
    Option<T::V>,
    CodecError,
> {
    match r {
        Ok(Some(value)) => Ok(Some(value@)),
        Ok(None) => Ok(None),
        Err(e) => Err(e),
    }
}

/// A dialect: a closed set of package kinds, each with its own discriminant
/// byte. A value of the implementing type names one kind.
pub trait Class: Copy + Sized {
    /// Name of the dialect, for diagnostics.
    const NAME: &'static str;

    /// The closed union of the dialect's package bodies: a value of it holds
    /// one body of any kind of the dialect.
    type Union: View;

    /// Name of the dialect, as contracts name it.
    spec fn name() -> Seq<char>;

    /// The byte that stands for this kind on the wire.
    spec fn discriminant(self) -> u8;

    /// The kind that a byte stands for, if any.
    spec fn from_discriminant(byte: u8) -> Option<Self>;

    /// The kind of the body that a union value holds.
    spec fn class_of(union: <Self::Union as View>::V) -> Self;

    /// The discriminant byte of this kind.
    fn to_u8(self) -> (byte: u8)
        ensures
            byte == self.discriminant(),
    ;

    /// The kind with the given discriminant byte; `None` for a byte that no
    /// kind of the dialect has.
    fn from_u8(byte: u8) -> (r: Option<Self>)
        ensures
            r == Self::from_discriminant(byte),
    ;

    /// The kind of the body that a union value holds.
    fn union_class(union: &Self::Union) -> (class: Self)
        ensures
            class == Self::class_of(union@),
    ;

    /// `NAME` is the name that contracts name.
    proof fn lemma_name()
        ensures
            Self::NAME@ == Self::name(),
    ;

    /// Each kind has a discriminant of its own, and the byte leads back to
    /// the kind.
    proof fn lemma_discriminant(class: Self)
        ensures
            Self::from_discriminant(class.discriminant()) == Some(class),
    ;

    /// A byte that stands for a kind is that kind's discriminant.
    proof fn lemma_from_discriminant(byte: u8)
        ensures
            Self::from_discriminant(byte) matches Some(class) ==> class.discriminant() == byte,
    ;
}

/// A dialect with its wire format: how the bodies of its union are written
/// and read.
pub trait Dialect: Class {
    /// The bytes that the body in a union value is written as, without the
    /// header.
    spec fn body_wire(union: <Self::Union as View>::V) -> Seq<u8>;

    /// The body of this kind that a buffer of body bytes holds, if any, as a
    /// union value.
    spec fn parse_body(self, bytes: Seq<u8>) -> Option<<Self::Union as View>::V>;

    /// Whether a body comes back unchanged from its wire image: its texts
    /// fit their fields.
    spec fn round_trips(union: <Self::Union as View>::V) -> bool;

    /// Appends the frame of whichever body the union value holds.
    fn serialize(union: &Self::Union, writer: &mut Vec<u8>)
        ensures
            final(writer)@ == old(writer)@ + frame(
                Self::class_of(union@).discriminant(),
                Self::body_wire(union@),
            ),
    ;

    /// Decodes the frame that `bytes` start with into the body that its
    /// discriminant announces. The frame has to be whole, then its
    /// discriminant known, then its body well-formed; what follows the frame
    /// plays no part.
    fn deserialize(bytes: &[u8]) -> (r: Result<Self::Union, CodecError>)
        ensures
            outcome_view(r) == if !framed(bytes@) {
                Err(CodecError::FrameError)
            } else {
                match Self::from_discriminant(frame_discriminant(bytes@)) {
                    None => Err(CodecError::UnknownDiscriminant(frame_discriminant(bytes@))),
                    Some(class) => match class.parse_body(frame_body(bytes@)) {
                        Some(union) => Ok(union),
                        None => Err(CodecError::BodyDecodeError(frame_discriminant(bytes@))),
                    },
                }
            },
    ;

    /// The diagnostic text of the body that a union value holds: what the
    /// body's own type writes for it.
    spec fn debug_text(union: <Self::Union as View>::V) -> Seq<char>;

    /// The diagnostic text of whichever body the union value holds, as the
    /// body's own type writes it.
    fn debug_body(union: &Self::Union) -> (text: String)
        ensures
            text@ == Self::debug_text(union@),
    ;

    /// No body is longer than the header's length byte can say.
    proof fn lemma_body_wire_len(union: <Self::Union as View>::V)
        ensures
            Self::body_wire(union).len() <= 255,
    ;

    /// A body that was parsed as some kind is of that kind.
    proof fn lemma_parse_body_class(class: Self, bytes: Seq<u8>)
        ensures
            class.parse_body(bytes) matches Some(union) ==> Self::class_of(union) == class,
    ;

    /// A body whose texts fit comes back from its wire image, whatever
    /// follows the image in the buffer.
    proof fn lemma_body_round_trip(union: <Self::Union as View>::V, tail: Seq<u8>)
        requires
            Self::round_trips(union),
        ensures
            Self::class_of(union).parse_body(Self::body_wire(union) + tail) == Some(union),
    ;
}

/// The frame that a body of the dialect `C` is written as.
pub open spec fn encoding<C: Dialect>(union: <C::Union as View>::V) -> Seq<u8> {
    frame(C::class_of(union).discriminant(), C::body_wire(union))
}

/// What decoding makes of a buffer in the dialect `C`. The frame has to be
/// whole, then its discriminant known, then its body well-formed; what
/// follows the frame plays no part.
pub open spec fn decoding<C: Dialect>(bytes: Seq<u8>) -> Result<<C::Union as View>::V, CodecError> {
    if !framed(bytes) {
        Err(CodecError::FrameError)
    } else {
        match C::from_discriminant(frame_discriminant(bytes)) {
            None => Err(CodecError::UnknownDiscriminant(frame_discriminant(bytes))),
            Some(class) => match class.parse_body(frame_body(bytes)) {
                Some(union) => Ok(union),
                None => Err(CodecError::BodyDecodeError(frame_discriminant(bytes))),
            },
        }
    }
}

/// What each package body of a dialect can do: name its kind, write and
/// read its own body bytes, and go into and out of the dialect's union.
pub trait PackageBody: Sized + View {
    /// The dialect that this body belongs to.
    type Class: Class;

    /// The kind of this body within its dialect.
    const VARIANT: Self::Class;

    /// The kind of this body within its dialect, as contracts name it.
    spec fn variant() -> Self::Class;

    /// The body bytes of a value.
    spec fn wire(value: Self::V) -> Seq<u8>;

    /// The value that a buffer of body bytes holds, if any.
    spec fn parse(bytes: Seq<u8>) -> Option<Self::V>;

    /// This body as a value of the dialect's union.
    spec fn inject(value: Self::V) -> <<Self::Class as Class>::Union as View>::V;

    /// This body out of a value of the dialect's union, if that is what the
    /// union value holds.
    spec fn project(union: <<Self::Class as Class>::Union as View>::V) -> Option<Self::V>;

    /// Puts the body into a package of its dialect.
    fn to_package(self) -> (package: Package<Self::Class>)
        ensures
            package@ == Self::inject(self@),
    {
        Package::from_union(self.into_union())
    }

    /// The kind of this body.
    fn package_type(&self) -> (class: Self::Class)
        ensures
            class == Self::variant(),
    {
        proof {
            Self::lemma_variant();
        }
        Self::VARIANT
    }

    /// Appends the body bytes, without a header.
    fn serialize_body(&self, writer: &mut Vec<u8>)
        ensures
            final(writer)@ == old(writer)@ + Self::wire(self@),
    ;

    /// Reads a body from a buffer that holds the body bytes alone. Bytes
    /// behind the body's last field are passed over.
    fn deserialize_body(bytes: &[u8]) -> (r: Result<Self, CodecError>)
        ensures
            outcome_view(r) == match Self::parse(bytes@) {
                Some(value) => Ok(value),
                None => Err(CodecError::BodyDecodeError(Self::variant().discriminant())),
            },
    ;

    /// Appends the package's frame: the header with this body's discriminant
    /// and the length of its body bytes, then the body bytes.
    fn serialize(&self, writer: &mut Vec<u8>)
        ensures
            final(writer)@ == old(writer)@ + frame(
                Self::variant().discriminant(),
                Self::wire(self@),
            ),
    {
        let mut body: Vec<u8> = Vec::new();
        self.serialize_body(&mut body);
        proof {
            Self::lemma_variant();
            Self::lemma_wire_len(self@);
            assert(body@ =~= Self::wire(self@));
        }
        write_header(Self::VARIANT.to_u8(), body.len() as u8, writer);
        writer.append(&mut body);
        assert(writer@ =~= old(writer)@ + frame(
            Self::variant().discriminant(),
            Self::wire(self@),
        ));
    }

    /// Probes the frame that `bytes` start with for a package of this kind.
    /// A broken frame and a discriminant that the dialect does not know are
    /// errors; a package of another kind of the dialect is `Ok(None)`; and
    /// else the body is decoded.
    fn deserialize(bytes: &[u8]) -> (r: Result<Option<Self>, CodecError>)
        ensures
            probe_view(r) == if !framed(bytes@) {
                Err(CodecError::FrameError)
            } else {
                match <Self::Class as Class>::from_discriminant(frame_discriminant(bytes@)) {
                    None => Err(CodecError::UnknownDiscriminant(frame_discriminant(bytes@))),
                    Some(class) => if class == Self::variant() {
                        match Self::parse(frame_body(bytes@)) {
                            Some(value) => Ok(Some(value)),
                            None => Err(CodecError::BodyDecodeError(frame_discriminant(bytes@))),
                        }
                    } else {
                        Ok(None)
                    },
                }
            },
    {
        let (discriminant, body) = match read_frame(bytes) {
            Ok(parts) => parts,
            Err(e) => { return Err(e); },
        };
        let class = match <Self::Class as Class>::from_u8(discriminant) {
            Some(class) => class,
            None => { return Err(CodecError::UnknownDiscriminant(discriminant)); },
        };
        proof {
            Self::lemma_variant();
            <Self::Class as Class>::lemma_from_discriminant(discriminant);
            <Self::Class as Class>::lemma_discriminant(Self::variant());
        }
        if class.to_u8() == Self::VARIANT.to_u8() {
            match Self::deserialize_body(body) {
                Ok(value) => Ok(Some(value)),
                Err(e) => Err(e),
            }
        } else {
            Ok(None)
        }
    }

    /// Moves the body into the dialect's union.
    fn into_union(self) -> (union: <Self::Class as Class>::Union)
        ensures
            union@ == Self::inject(self@),
    ;

    /// Moves the body out of a union value that holds one of this kind.
    fn from_union(union: <Self::Class as Class>::Union) -> (r: Option<Self>)
        ensures
            r is Some <==> Self::project(union@) is Some,
            r matches Some(value) ==> Some(value@) == Self::project(union@),
    ;

    /// Borrows the body from a union value that holds one of this kind.
    fn union_ref(union: &<Self::Class as Class>::Union) -> (r: Option<&Self>)
        ensures
            r is Some <==> Self::project(union@) is Some,
            r matches Some(value) ==> Some(value@) == Self::project(union@),
    ;

    /// Borrows the body mutably from a union value that holds one of this
    /// kind. Whatever is written through the borrow, the union value goes
    /// on holding a body of this kind.
    fn union_mut(union: &mut <Self::Class as Class>::Union) -> (r: Option<&mut Self>)
        ensures
            r is Some <==> Self::project(old(union)@) is Some,
            r matches Some(value) ==> Some((*value)@) == Self::project(old(union)@)
                && final(union)@ == Self::inject((*final(value))@),
            r is None ==> final(union)@ == old(union)@,
    ;

    /// Whether a value comes back unchanged from its body bytes: its texts
    /// fit their fields.
    spec fn round_trips(value: Self::V) -> bool;

    /// The diagnostic text of a value: the name of its type, and behind it in
    /// braces each field's name and value, numbers in decimal digits and
    /// texts in quotes. A body without fields is its name alone.
    spec fn debug_text(value: Self::V) -> Seq<char>;

    /// Writes the body out for diagnostics.
    fn debug_string(&self) -> (text: String)
        ensures
            text@ == Self::debug_text(self@),
    ;

    /// `VARIANT` is the kind that contracts name.
    proof fn lemma_variant()
        ensures
            Self::VARIANT == Self::variant(),
    ;

    /// No body is longer than the header's length byte can say.
    proof fn lemma_wire_len(value: Self::V)
        ensures
            Self::wire(value).len() <= 255,
    ;

    /// A value whose texts fit comes back from its body bytes, whatever
    /// follows them in the buffer.
    proof fn lemma_round_trip(value: Self::V, tail: Seq<u8>)
        requires
            Self::round_trips(value),
        ensures
            Self::parse(Self::wire(value) + tail) == Some(value),
    ;

    /// A union value holds a body of this kind exactly when its kind is
    /// this body's; the body that comes out goes back in as the same value.
    proof fn lemma_project(union: <<Self::Class as Class>::Union as View>::V)
        ensures
            Self::project(union) is Some <==> <Self::Class as Class>::class_of(union)
                == Self::variant(),
            Self::project(union) matches Some(value) ==> Self::inject(value) == union,
    ;

    /// A body that went into the union comes out of it again.
    proof fn lemma_inject(value: Self::V)
        ensures
            Self::project(Self::inject(value)) == Some(value),
    ;
}

/// Marks the types that can travel as package bodies; every
/// [`PackageBody`] has it. It is the place for what a serialization
/// framework asks of a body. The codec itself asks nothing.
pub trait SerdeBounds {

}

impl<T: PackageBody> SerdeBounds for T {

}

/// One package of the dialect `C`: a body of any of the dialect's kinds,
/// together with the knowledge of which kind it is.
///
/// The body's concrete type is not part of the package's type. It is got
/// back by [`Package::downcast`] and its siblings, which hand the body out
/// only as the type that it really has. The kind is read off the held value
/// itself, so it cannot come to disagree with the body, whatever is written
/// to the body through a mutable downcast.
pub struct Package<C: Class> {
    inner: C::Union,
}

impl<C: Class> View for Package<C> {
    type V = <C::Union as View>::V;

    /// The body that the package holds.
    closed spec fn view(&self) -> Self::V {
        self.inner@
    }
}

impl<C: Class> Package<C> {
    /// Wraps a body.
    pub fn new<P: PackageBody<Class = C>>(pkg: P) -> (package: Self)
        ensures
            package@ == P::inject(pkg@),
    {
        Package { inner: pkg.into_union() }
    }

    /// Wraps a body that is already boxed.
    pub fn from_box<P: PackageBody<Class = C>>(pkg: Box<P>) -> (package: Self)
        ensures
            package@ == P::inject((*pkg)@),
    {
        Package { inner: (*pkg).into_union() }
    }

    /// Wraps a value of the dialect's union.
    pub fn from_union(union: C::Union) -> (package: Self)
        ensures
            package@ == union@,
    {
        Package { inner: union }
    }

    /// Gives the dialect's union value back.
    pub fn into_union(self) -> (union: C::Union)
        ensures
            union@ == self@,
    {
        self.inner
    }

    /// The kind of the body that the package holds.
    pub fn package_type(&self) -> (class: C)
        ensures
            class == C::class_of(self@),
    {
        C::union_class(&self.inner)
    }

    /// Whether the package holds a body of type `P`, judged by its kind.
    pub fn is<P: PackageBody<Class = C>>(&self) -> (b: bool)
        ensures
            b == (C::class_of(self@) == P::variant()),
    {
        proof {
            P::lemma_variant();
            C::lemma_discriminant(C::class_of(self@));
            C::lemma_discriminant(P::variant());
        }
        self.package_type().to_u8() == P::VARIANT.to_u8()
    }

    /// Gives the body out as a `P`, if the package is of `P`'s kind.
    pub fn downcast<P: PackageBody<Class = C>>(self) -> (r: Option<Box<P>>)
        ensures
            r is Some <==> C::class_of(self@) == P::variant(),
            r matches Some(body) ==> Some((*body)@) == P::project(self@),
    {
        proof {
            P::lemma_project(self@);
        }
        if self.is::<P>() {
            match P::from_union(self.inner) {
                Some(body) => Some(Box::new(body)),
                None => None,
            }
        } else {
            None
        }
    }

    /// Lends the body as a `P`, if the package is of `P`'s kind.
    pub fn downcast_ref<P: PackageBody<Class = C>>(&self) -> (r: Option<&P>)
        ensures
            r is Some <==> C::class_of(self@) == P::variant(),
            r matches Some(body) ==> Some(body@) == P::project(self@),
    {
        proof {
            P::lemma_project(self@);
        }
        if self.is::<P>() {
            P::union_ref(&self.inner)
        } else {
            None
        }
    }

    /// Lends the body mutably as a `P`, if the package is of `P`'s kind.
    /// The package stays of that kind whatever is written to the body.
    pub fn downcast_mut<P: PackageBody<Class = C>>(&mut self) -> (r: Option<&mut P>)
        ensures
            r is Some <==> C::class_of(old(self)@) == P::variant(),
            r matches Some(body) ==> Some((*body)@) == P::project(old(self)@) && final(self)@
                == P::inject((*final(body))@),
            r is None ==> final(self)@ == old(self)@,
    {
        proof {
            P::lemma_project(self@);
        }
        if self.is::<P>() {
            P::union_mut(&mut self.inner)
        } else {
            None
        }
    }

    /// Lends the body as a `P` if that is the body's type, judged by the
    /// body itself.
    pub fn raw_downcast_ref<P: PackageBody<Class = C>>(&self) -> (r: Option<&P>)
        ensures
            r is Some <==> P::project(self@) is Some,
            r matches Some(body) ==> Some(body@) == P::project(self@),
    {
        P::union_ref(&self.inner)
    }

    /// Lends the body mutably as a `P` if that is the body's type, judged by
    /// the body itself.
    pub fn raw_downcast_mut<P: PackageBody<Class = C>>(&mut self) -> (r: Option<&mut P>)
        ensures
            r is Some <==> P::project(old(self)@) is Some,
            r matches Some(body) ==> Some((*body)@) == P::project(old(self)@) && final(self)@
                == P::inject((*final(body))@),
            r is None ==> final(self)@ == old(self)@,
    {
        P::union_mut(&mut self.inner)
    }

    /// Whether the body's type is `P`, judged by the body itself.
    pub fn raw_is<P: PackageBody<Class = C>>(&self) -> (b: bool)
        ensures
            b == P::project(self@) is Some,
    {
        P::union_ref(&self.inner).is_some()
    }
}

impl<C: Dialect> Package<C> {
    /// Appends the package's frame: header and body of whichever kind the
    /// package holds.
    pub fn serialize(&self, writer: &mut Vec<u8>)
        ensures
            final(writer)@ == old(writer)@ + encoding::<C>(self@),
    {
        C::serialize(&self.inner, writer)
    }

    /// Decodes the frame that `bytes` start with. The header is read once;
    /// the body is taken in the length that the header announces and read
    /// as the kind that the discriminant names.
    pub fn deserialize(bytes: &[u8]) -> (r: Result<Self, CodecError>)
        ensures
            outcome_view(r) == decoding::<C>(bytes@),
    {
        match C::deserialize(bytes) {
            Ok(union) => Ok(Package { inner: union }),
            Err(e) => Err(e),
        }
    }

    /// Diagnostic text of the package: `Package<`, the dialect's name, `>`,
    /// and in round brackets the diagnostic text of the body as its own type
    /// writes it.
    pub fn debug_string(&self) -> (text: String)
        ensures
            text@ == "Package<"@ + C::name() + ">("@ + C::debug_text(self@) + ")"@,
    {
        proof {
            C::lemma_name();
        }
        let body = C::debug_body(&self.inner);
        let mut text = String::from_str("Package<");
        text.append(C::NAME);
        text.append(">(");
        text.append(body.as_str());
        text.append(")");
        text
    }
}

impl<P: PackageBody> From<P> for Package<P::Class> {
    /// Wraps a body, as [`Package::new`] does.
    fn from(pkg: P) -> (package: Self)
        ensures
            package@ == P::inject(pkg@),
    {
        Package { inner: pkg.into_union() }
    }
}

/// The conversion is pinned by the contract of `from` itself, over the
/// package's view: `from_spec` would have to name the package as a whole.
impl<P: PackageBody> FromSpecImpl<P> for Package<P::Class> {
    open spec fn obeys_from_spec() -> bool {
        false
    }

    open spec fn from_spec(pkg: P) -> Self {
        arbitrary()
    }
}

} // verus!
