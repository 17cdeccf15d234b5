//! The packages of the centralex dialect.
use vstd::prelude::*;
use vstd::std_specs::convert::{FromSpecImpl, TryFromSpecImpl};
use vstd::string::StringExecFns;
use crate::addr::{Ipv4Addr, Ipv6Addr};
use crate::centralex::package_enum::{Package, PackageView};
use crate::centralex::Centralex;
use crate::codec::{
    capped_text,
    capped_wire,
    decode_capped_string,
    encode_capped_string,
    lemma_capped_round_trip,
    lemma_u16_round_trip,
    lemma_u32_round_trip,
    read_u16,
    read_u32,
    text_fits,
    u16_from_le,
    u16_le,
    u32_from_le,
    u32_le,
    write_u16,
    write_u32,
    CAPPED_MAX_CONTENT,
};
use crate::error::CodecError;
use crate::render::{decimal, decimal_string, quoted, str_debug};
use crate::{Class, PackageBody};

verus! {

/// Number of body bytes of [`Heartbeat`].
pub const LENGTH_HEARTBEAT: u8 = 0;

/// Number of body bytes of [`End`].
pub const LENGTH_END: u8 = 0;

/// Number of body bytes of [`RemConnect`].
pub const LENGTH_REM_CONNECT: u8 = 6;

/// Number of body bytes of [`RemConfirm`].
pub const LENGTH_REM_CONFIRM: u8 = 0;

/// Number of body bytes of [`RemCall`].
pub const LENGTH_REM_CALL: u8 = 20;

/// Number of body bytes of [`RemAck`].
pub const LENGTH_REM_ACK: u8 = 0;

/// Keeps an idle connection open. It has no body.
#[derive(Debug, Clone, PartialEq, Eq, Structural)]
pub struct Heartbeat {}

impl View for Heartbeat {
    type V = Heartbeat;

    open spec fn view(&self) -> Heartbeat {
        *self
    }
}

impl PackageBody for Heartbeat {
    type Class = Centralex;

    const VARIANT: Centralex = Centralex::Heartbeat;

    open spec fn variant() -> Centralex {
        Centralex::Heartbeat
    }

    open spec fn wire(value: Heartbeat) -> Seq<u8> {
        Seq::empty()
    }

    open spec fn parse(bytes: Seq<u8>) -> Option<Heartbeat> {
        Some(Heartbeat {})
    }

    open spec fn round_trips(value: Heartbeat) -> bool {
        true
    }

    open spec fn inject(value: Heartbeat) -> PackageView {
        PackageView::Heartbeat(value)
    }

    open spec fn project(union: PackageView) -> Option<Heartbeat> {
        match union {
            PackageView::Heartbeat(value) => Some(value),
            _ => None,
        }
    }

    fn serialize_body(&self, writer: &mut Vec<u8>) {
        assert(writer@ =~= old(writer)@ + Self::wire(self@));
    }

    fn deserialize_body(bytes: &[u8]) -> (r: Result<Heartbeat, CodecError>) {
        Ok(Heartbeat {})
    }

    open spec fn debug_text(value: Heartbeat) -> Seq<char> {
        "Heartbeat"@
    }

    fn debug_string(&self) -> (text: String) {
        String::from_str("Heartbeat")
    }

    fn into_union(self) -> (union: Package) {
        let union = Package::Heartbeat(self);
        assert(union@ == PackageView::Heartbeat(self@));
        union
    }

    fn from_union(union: Package) -> (r: Option<Heartbeat>) {
        match union {
            Package::Heartbeat(value) => Some(value),
            _ => None,
        }
    }

    fn union_ref(union: &Package) -> (r: Option<&Heartbeat>) {
        match union {
            Package::Heartbeat(value) => Some(value),
            _ => None,
        }
    }

    fn union_mut(union: &mut Package) -> (r: Option<&mut Heartbeat>) {
        match union {
            Package::Heartbeat(value) => Some(value),
            _ => None,
        }
    }

    proof fn lemma_variant() {
        assert(Self::VARIANT == Centralex::Heartbeat);
    }

    proof fn lemma_wire_len(value: Heartbeat) {
    }

    proof fn lemma_round_trip(value: Heartbeat, tail: Seq<u8>) {
    }

    proof fn lemma_project(union: PackageView) {
        assert(Centralex::class_of(union) == Centralex::Heartbeat <==> union is Heartbeat);
    }

    proof fn lemma_inject(value: Heartbeat) {
    }
}

impl From<Box<Heartbeat>> for crate::Package<Centralex> {
    /// Wraps a boxed body, as [`crate::Package::from_box`] does.
    fn from(pkg: Box<Heartbeat>) -> (package: Self)
        ensures
            package@ == Heartbeat::inject((*pkg)@),
    {
        crate::Package::from_box(pkg)
    }
}

/// The conversion is pinned by the contract of `from` itself, over the
/// package's view.
impl FromSpecImpl<Box<Heartbeat>> for crate::Package<Centralex> {
    open spec fn obeys_from_spec() -> bool {
        false
    }

    open spec fn from_spec(pkg: Box<Heartbeat>) -> Self {
        arbitrary()
    }
}

impl TryFrom<crate::Package<Centralex>> for Heartbeat {
    type Error = ();

    /// Takes the body out of a package of this kind. A package of another
    /// kind is an error.
    fn try_from(pkg: crate::Package<Centralex>) -> (r: Result<Heartbeat, ()>)
        ensures
            r is Ok <==> Heartbeat::project(pkg@) is Some,
            r matches Ok(body) ==> Some(body@) == Heartbeat::project(pkg@),
    {
        proof {
            Heartbeat::lemma_project(pkg@);
        }
        match pkg.downcast::<Heartbeat>() {
            Some(body) => Ok(*body),
            None => Err(()),
        }
    }
}

/// The conversion is pinned by the contract of `try_from` itself, over the
/// views of package and body.
impl TryFromSpecImpl<crate::Package<Centralex>> for Heartbeat {
    open spec fn obeys_try_from_spec() -> bool {
        false
    }

    open spec fn try_from_spec(pkg: crate::Package<Centralex>) -> Result<Heartbeat, ()> {
        arbitrary()
    }
}

/// Ends the connection. It has no body.
#[derive(Debug, Clone, PartialEq, Eq, Structural)]
pub struct End {}

impl View for End {
    type V = End;

    open spec fn view(&self) -> End {
        *self
    }
}

impl PackageBody for End {
    type Class = Centralex;

    const VARIANT: Centralex = Centralex::End;

    open spec fn variant() -> Centralex {
        Centralex::End
    }

    open spec fn wire(value: End) -> Seq<u8> {
        Seq::empty()
    }

    open spec fn parse(bytes: Seq<u8>) -> Option<End> {
        Some(End {})
    }

    open spec fn round_trips(value: End) -> bool {
        true
    }

    open spec fn inject(value: End) -> PackageView {
        PackageView::End(value)
    }

    open spec fn project(union: PackageView) -> Option<End> {
        match union {
            PackageView::End(value) => Some(value),
            _ => None,
        }
    }

    fn serialize_body(&self, writer: &mut Vec<u8>) {
        assert(writer@ =~= old(writer)@ + Self::wire(self@));
    }

    fn deserialize_body(bytes: &[u8]) -> (r: Result<End, CodecError>) {
        Ok(End {})
    }

    open spec fn debug_text(value: End) -> Seq<char> {
        "End"@
    }

    fn debug_string(&self) -> (text: String) {
        String::from_str("End")
    }

    fn into_union(self) -> (union: Package) {
        let union = Package::End(self);
        assert(union@ == PackageView::End(self@));
        union
    }

    fn from_union(union: Package) -> (r: Option<End>) {
        match union {
            Package::End(value) => Some(value),
            _ => None,
        }
    }

    fn union_ref(union: &Package) -> (r: Option<&End>) {
        match union {
            Package::End(value) => Some(value),
            _ => None,
        }
    }

    fn union_mut(union: &mut Package) -> (r: Option<&mut End>) {
        match union {
            Package::End(value) => Some(value),
            _ => None,
        }
    }

    proof fn lemma_variant() {
        assert(Self::VARIANT == Centralex::End);
    }

    proof fn lemma_wire_len(value: End) {
    }

    proof fn lemma_round_trip(value: End, tail: Seq<u8>) {
    }

    proof fn lemma_project(union: PackageView) {
        assert(Centralex::class_of(union) == Centralex::End <==> union is End);
    }

    proof fn lemma_inject(value: End) {
    }
}

impl From<Box<End>> for crate::Package<Centralex> {
    /// Wraps a boxed body, as [`crate::Package::from_box`] does.
    fn from(pkg: Box<End>) -> (package: Self)
        ensures
            package@ == End::inject((*pkg)@),
    {
        crate::Package::from_box(pkg)
    }
}

/// The conversion is pinned by the contract of `from` itself, over the
/// package's view.
impl FromSpecImpl<Box<End>> for crate::Package<Centralex> {
    open spec fn obeys_from_spec() -> bool {
        false
    }

    open spec fn from_spec(pkg: Box<End>) -> Self {
        arbitrary()
    }
}

impl TryFrom<crate::Package<Centralex>> for End {
    type Error = ();

    /// Takes the body out of a package of this kind. A package of another
    /// kind is an error.
    fn try_from(pkg: crate::Package<Centralex>) -> (r: Result<End, ()>)
        ensures
            r is Ok <==> End::project(pkg@) is Some,
            r matches Ok(body) ==> Some(body@) == End::project(pkg@),
    {
        proof {
            End::lemma_project(pkg@);
        }
        match pkg.downcast::<End>() {
            Some(body) => Ok(*body),
            None => Err(()),
        }
    }
}

/// The conversion is pinned by the contract of `try_from` itself, over the
/// views of package and body.
impl TryFromSpecImpl<crate::Package<Centralex>> for End {
    open spec fn obeys_try_from_spec() -> bool {
        false
    }

    open spec fn try_from_spec(pkg: crate::Package<Centralex>) -> Result<End, ()> {
        arbitrary()
    }
}

/// Refuses a connection. The body is the reason, as zero-terminated text.
#[derive(Debug, Clone, PartialEq, Eq)]
pub struct Reject {
    pub message: String,
}

impl View for Reject {
    type V = Seq<char>;

    /// The text.
    open spec fn view(&self) -> Seq<char> {
        self.message@
    }
}

impl PackageBody for Reject {
    type Class = Centralex;

    const VARIANT: Centralex = Centralex::Reject;

    open spec fn variant() -> Centralex {
        Centralex::Reject
    }

    open spec fn wire(value: Seq<char>) -> Seq<u8> {
        capped_wire(value)
    }

    open spec fn parse(bytes: Seq<u8>) -> Option<Seq<char>> {
        Some(capped_text(bytes))
    }

    open spec fn round_trips(value: Seq<char>) -> bool {
        text_fits(value, CAPPED_MAX_CONTENT as nat)
    }

    open spec fn inject(value: Seq<char>) -> PackageView {
        PackageView::Reject(value)
    }

    open spec fn project(union: PackageView) -> Option<Seq<char>> {
        match union {
            PackageView::Reject(value) => Some(value),
            _ => None,
        }
    }

    fn serialize_body(&self, writer: &mut Vec<u8>) {
        let mut bytes = encode_capped_string(self.message.as_str());
        writer.append(&mut bytes);
    }

    fn deserialize_body(bytes: &[u8]) -> (r: Result<Reject, CodecError>) {
        Ok(Reject { message: decode_capped_string(bytes) })
    }

    open spec fn debug_text(value: Seq<char>) -> Seq<char> {
        "Reject { message: "@ + str_debug(value) + " }"@
    }

    fn debug_string(&self) -> (text: String) {
        let mut text = String::from_str("Reject { message: ");
        text.append(quoted(self.message.as_str()).as_str());
        text.append(" }");
        text
    }

    fn into_union(self) -> (union: Package) {
        let union = Package::Reject(self);
        assert(union@ == PackageView::Reject(self@));
        union
    }

    fn from_union(union: Package) -> (r: Option<Reject>) {
        match union {
            Package::Reject(value) => Some(value),
            _ => None,
        }
    }

    fn union_ref(union: &Package) -> (r: Option<&Reject>) {
        match union {
            Package::Reject(value) => Some(value),
            _ => None,
        }
    }

    fn union_mut(union: &mut Package) -> (r: Option<&mut Reject>) {
        match union {
            Package::Reject(value) => Some(value),
            _ => None,
        }
    }

    proof fn lemma_variant() {
        assert(Self::VARIANT == Centralex::Reject);
    }

    proof fn lemma_wire_len(value: Seq<char>) {
    }

    proof fn lemma_round_trip(value: Seq<char>, tail: Seq<u8>) {
        lemma_capped_round_trip(value, tail);
    }

    proof fn lemma_project(union: PackageView) {
        assert(Centralex::class_of(union) == Centralex::Reject <==> union is Reject);
    }

    proof fn lemma_inject(value: Seq<char>) {
    }
}

impl From<Box<Reject>> for crate::Package<Centralex> {
    /// Wraps a boxed body, as [`crate::Package::from_box`] does.
    fn from(pkg: Box<Reject>) -> (package: Self)
        ensures
            package@ == Reject::inject((*pkg)@),
    {
        crate::Package::from_box(pkg)
    }
}

/// The conversion is pinned by the contract of `from` itself, over the
/// package's view.
impl FromSpecImpl<Box<Reject>> for crate::Package<Centralex> {
    open spec fn obeys_from_spec() -> bool {
        false
    }

    open spec fn from_spec(pkg: Box<Reject>) -> Self {
        arbitrary()
    }
}

impl TryFrom<crate::Package<Centralex>> for Reject {
    type Error = ();

    /// Takes the body out of a package of this kind. A package of another
    /// kind is an error.
    fn try_from(pkg: crate::Package<Centralex>) -> (r: Result<Reject, ()>)
        ensures
            r is Ok <==> Reject::project(pkg@) is Some,
            r matches Ok(body) ==> Some(body@) == Reject::project(pkg@),
    {
        proof {
            Reject::lemma_project(pkg@);
        }
        match pkg.downcast::<Reject>() {
            Some(body) => Ok(*body),
            None => Err(()),
        }
    }
}

/// The conversion is pinned by the contract of `try_from` itself, over the
/// views of package and body.
impl TryFromSpecImpl<crate::Package<Centralex>> for Reject {
    open spec fn obeys_try_from_spec() -> bool {
        false
    }

    open spec fn try_from_spec(pkg: crate::Package<Centralex>) -> Result<Reject, ()> {
        arbitrary()
    }
}

impl From<String> for Reject {
    fn from(string: String) -> (reject: Reject) {
        Reject { message: string }
    }
}

impl FromSpecImpl<String> for Reject {
    open spec fn obeys_from_spec() -> bool {
        true
    }

    open spec fn from_spec(string: String) -> Reject {
        Reject { message: string }
    }
}

impl Reject {
    /// The text, as it would be printed.
    pub fn to_string(&self) -> (text: String)
        ensures
            text@ == self@,
    {
        self.message.clone()
    }
}

/// A terminal asks the gateway to take calls for its number.
#[derive(Debug, Clone, PartialEq, Eq, Structural)]
pub struct RemConnect {
    pub number: u32,
    pub pin: u16,
}

impl View for RemConnect {
    type V = RemConnect;

    open spec fn view(&self) -> RemConnect {
        *self
    }
}

impl PackageBody for RemConnect {
    type Class = Centralex;

    const VARIANT: Centralex = Centralex::RemConnect;

    open spec fn variant() -> Centralex {
        Centralex::RemConnect
    }

    open spec fn wire(value: RemConnect) -> Seq<u8> {
        u32_le(value.number) + u16_le(value.pin)
    }

    open spec fn parse(bytes: Seq<u8>) -> Option<RemConnect> {
        if bytes.len() >= 6 {
            Some(
                RemConnect {
                    number: u32_from_le(bytes.subrange(0, 4)),
                    pin: u16_from_le(bytes.subrange(4, 6)),
                },
            )
        } else {
            None
        }
    }

    open spec fn round_trips(value: RemConnect) -> bool {
        true
    }

    open spec fn inject(value: RemConnect) -> PackageView {
        PackageView::RemConnect(value)
    }

    open spec fn project(union: PackageView) -> Option<RemConnect> {
        match union {
            PackageView::RemConnect(value) => Some(value),
            _ => None,
        }
    }

    fn serialize_body(&self, writer: &mut Vec<u8>) {
        write_u32(self.number, writer);
        write_u16(self.pin, writer);
        assert(writer@ =~= old(writer)@ + Self::wire(self@));
    }

    fn deserialize_body(bytes: &[u8]) -> (r: Result<RemConnect, CodecError>) {
        assert(Centralex::RemConnect.discriminant() == 0x81);
        match (
            read_u32(bytes, 0),
            read_u16(bytes, 4),
        ) {
            (Some(number), Some(pin)) => Ok(RemConnect { number, pin }),
            _ => Err(CodecError::BodyDecodeError(0x81)),
        }
    }

    open spec fn debug_text(value: RemConnect) -> Seq<char> {
        "RemConnect { number: "@
            + decimal(value.number as nat)
            + ", pin: "@
            + decimal(value.pin as nat)
            + " }"@
    }

    fn debug_string(&self) -> (text: String) {
        let mut text = String::from_str("RemConnect { number: ");
        text.append(decimal_string(self.number).as_str());
        text.append(", pin: ");
        text.append(decimal_string(self.pin as u32).as_str());
        text.append(" }");
        text
    }

    fn into_union(self) -> (union: Package) {
        let union = Package::RemConnect(self);
        assert(union@ == PackageView::RemConnect(self@));
        union
    }

    fn from_union(union: Package) -> (r: Option<RemConnect>) {
        match union {
            Package::RemConnect(value) => Some(value),
            _ => None,
        }
    }

    fn union_ref(union: &Package) -> (r: Option<&RemConnect>) {
        match union {
            Package::RemConnect(value) => Some(value),
            _ => None,
        }
    }

    fn union_mut(union: &mut Package) -> (r: Option<&mut RemConnect>) {
        match union {
            Package::RemConnect(value) => Some(value),
            _ => None,
        }
    }

    proof fn lemma_variant() {
        assert(Self::VARIANT == Centralex::RemConnect);
    }

    proof fn lemma_wire_len(value: RemConnect) {
    }

    proof fn lemma_round_trip(value: RemConnect, tail: Seq<u8>) {
        let bytes = Self::wire(value) + tail;
        assert(bytes.subrange(0, 4) =~= u32_le(value.number));
        lemma_u32_round_trip(value.number);
        assert(bytes.subrange(4, 6) =~= u16_le(value.pin));
        lemma_u16_round_trip(value.pin);
    }

    proof fn lemma_project(union: PackageView) {
        assert(Centralex::class_of(union) == Centralex::RemConnect <==> union is RemConnect);
    }

    proof fn lemma_inject(value: RemConnect) {
    }
}

impl From<Box<RemConnect>> for crate::Package<Centralex> {
    /// Wraps a boxed body, as [`crate::Package::from_box`] does.
    fn from(pkg: Box<RemConnect>) -> (package: Self)
        ensures
            package@ == RemConnect::inject((*pkg)@),
    {
        crate::Package::from_box(pkg)
    }
}

/// The conversion is pinned by the contract of `from` itself, over the
/// package's view.
impl FromSpecImpl<Box<RemConnect>> for crate::Package<Centralex> {
    open spec fn obeys_from_spec() -> bool {
        false
    }

    open spec fn from_spec(pkg: Box<RemConnect>) -> Self {
        arbitrary()
    }
}

impl TryFrom<crate::Package<Centralex>> for RemConnect {
    type Error = ();

    /// Takes the body out of a package of this kind. A package of another
    /// kind is an error.
    fn try_from(pkg: crate::Package<Centralex>) -> (r: Result<RemConnect, ()>)
        ensures
            r is Ok <==> RemConnect::project(pkg@) is Some,
            r matches Ok(body) ==> Some(body@) == RemConnect::project(pkg@),
    {
        proof {
            RemConnect::lemma_project(pkg@);
        }
        match pkg.downcast::<RemConnect>() {
            Some(body) => Ok(*body),
            None => Err(()),
        }
    }
}

/// The conversion is pinned by the contract of `try_from` itself, over the
/// views of package and body.
impl TryFromSpecImpl<crate::Package<Centralex>> for RemConnect {
    open spec fn obeys_try_from_spec() -> bool {
        false
    }

    open spec fn try_from_spec(pkg: crate::Package<Centralex>) -> Result<RemConnect, ()> {
        arbitrary()
    }
}

/// The gateway takes calls for the terminal from now on. It has no body.
#[derive(Debug, Clone, PartialEq, Eq, Structural)]
pub struct RemConfirm {}

impl View for RemConfirm {
    type V = RemConfirm;

    open spec fn view(&self) -> RemConfirm {
        *self
    }
}

impl PackageBody for RemConfirm {
    type Class = Centralex;

    const VARIANT: Centralex = Centralex::RemConfirm;

    open spec fn variant() -> Centralex {
        Centralex::RemConfirm
    }

    open spec fn wire(value: RemConfirm) -> Seq<u8> {
        Seq::empty()
    }

    open spec fn parse(bytes: Seq<u8>) -> Option<RemConfirm> {
        Some(RemConfirm {})
    }

    open spec fn round_trips(value: RemConfirm) -> bool {
        true
    }

    open spec fn inject(value: RemConfirm) -> PackageView {
        PackageView::RemConfirm(value)
    }

    open spec fn project(union: PackageView) -> Option<RemConfirm> {
        match union {
            PackageView::RemConfirm(value) => Some(value),
            _ => None,
        }
    }

    fn serialize_body(&self, writer: &mut Vec<u8>) {
        assert(writer@ =~= old(writer)@ + Self::wire(self@));
    }

    fn deserialize_body(bytes: &[u8]) -> (r: Result<RemConfirm, CodecError>) {
        Ok(RemConfirm {})
    }

    open spec fn debug_text(value: RemConfirm) -> Seq<char> {
        "RemConfirm"@
    }

    fn debug_string(&self) -> (text: String) {
        String::from_str("RemConfirm")
    }

    fn into_union(self) -> (union: Package) {
        let union = Package::RemConfirm(self);
        assert(union@ == PackageView::RemConfirm(self@));
        union
    }

    fn from_union(union: Package) -> (r: Option<RemConfirm>) {
        match union {
            Package::RemConfirm(value) => Some(value),
            _ => None,
        }
    }

    fn union_ref(union: &Package) -> (r: Option<&RemConfirm>) {
        match union {
            Package::RemConfirm(value) => Some(value),
            _ => None,
        }
    }

    fn union_mut(union: &mut Package) -> (r: Option<&mut RemConfirm>) {
        match union {
            Package::RemConfirm(value) => Some(value),
            _ => None,
        }
    }

    proof fn lemma_variant() {
        assert(Self::VARIANT == Centralex::RemConfirm);
    }

    proof fn lemma_wire_len(value: RemConfirm) {
    }

    proof fn lemma_round_trip(value: RemConfirm, tail: Seq<u8>) {
    }

    proof fn lemma_project(union: PackageView) {
        assert(Centralex::class_of(union) == Centralex::RemConfirm <==> union is RemConfirm);
    }

    proof fn lemma_inject(value: RemConfirm) {
    }
}

impl From<Box<RemConfirm>> for crate::Package<Centralex> {
    /// Wraps a boxed body, as [`crate::Package::from_box`] does.
    fn from(pkg: Box<RemConfirm>) -> (package: Self)
        ensures
            package@ == RemConfirm::inject((*pkg)@),
    {
        crate::Package::from_box(pkg)
    }
}

/// The conversion is pinned by the contract of `from` itself, over the
/// package's view.
impl FromSpecImpl<Box<RemConfirm>> for crate::Package<Centralex> {
    open spec fn obeys_from_spec() -> bool {
        false
    }

    open spec fn from_spec(pkg: Box<RemConfirm>) -> Self {
        arbitrary()
    }
}

impl TryFrom<crate::Package<Centralex>> for RemConfirm {
    type Error = ();

    /// Takes the body out of a package of this kind. A package of another
    /// kind is an error.
    fn try_from(pkg: crate::Package<Centralex>) -> (r: Result<RemConfirm, ()>)
        ensures
            r is Ok <==> RemConfirm::project(pkg@) is Some,
            r matches Ok(body) ==> Some(body@) == RemConfirm::project(pkg@),
    {
        proof {
            RemConfirm::lemma_project(pkg@);
        }
        match pkg.downcast::<RemConfirm>() {
            Some(body) => Ok(*body),
            None => Err(()),
        }
    }
}

/// The conversion is pinned by the contract of `try_from` itself, over the
/// views of package and body.
impl TryFromSpecImpl<crate::Package<Centralex>> for RemConfirm {
    open spec fn obeys_try_from_spec() -> bool {
        false
    }

    open spec fn try_from_spec(pkg: crate::Package<Centralex>) -> Result<RemConfirm, ()> {
        arbitrary()
    }
}

/// The gateway announces a call, with the caller's addresses.
///
/// Older tables of this dialect list the package with an empty body. The body
/// that is written here holds both addresses, 20 bytes, and the header
/// announces what is written; a frame that announces less for this package is
/// not read as one.
#[derive(Debug, Clone, PartialEq, Eq, Structural)]
pub struct RemCall {
    pub remote_ip_v4: Ipv4Addr,
    pub remote_ip_v6: Ipv6Addr,
}

impl View for RemCall {
    type V = RemCall;

    open spec fn view(&self) -> RemCall {
        *self
    }
}

impl PackageBody for RemCall {
    type Class = Centralex;

    const VARIANT: Centralex = Centralex::RemCall;

    open spec fn variant() -> Centralex {
        Centralex::RemCall
    }

    open spec fn wire(value: RemCall) -> Seq<u8> {
        value.remote_ip_v4.wire() + value.remote_ip_v6.wire()
    }

    open spec fn parse(bytes: Seq<u8>) -> Option<RemCall> {
        if bytes.len() >= 20 {
            Some(
                RemCall {
                    remote_ip_v4: Ipv4Addr::parse(bytes.subrange(0, 4)),
                    remote_ip_v6: Ipv6Addr::parse(bytes.subrange(4, 20)),
                },
            )
        } else {
            None
        }
    }

    open spec fn round_trips(value: RemCall) -> bool {
        true
    }

    open spec fn inject(value: RemCall) -> PackageView {
        PackageView::RemCall(value)
    }

    open spec fn project(union: PackageView) -> Option<RemCall> {
        match union {
            PackageView::RemCall(value) => Some(value),
            _ => None,
        }
    }

    fn serialize_body(&self, writer: &mut Vec<u8>) {
        self.remote_ip_v4.serialize(writer);
        self.remote_ip_v6.serialize(writer);
        assert(writer@ =~= old(writer)@ + Self::wire(self@));
    }

    fn deserialize_body(bytes: &[u8]) -> (r: Result<RemCall, CodecError>) {
        assert(Centralex::RemCall.discriminant() == 0x83);
        match (
            Ipv4Addr::deserialize(bytes, 0),
            Ipv6Addr::deserialize(bytes, 4),
        ) {
            (Some(remote_ip_v4), Some(remote_ip_v6)) => Ok(RemCall { remote_ip_v4, remote_ip_v6 }),
            _ => Err(CodecError::BodyDecodeError(0x83)),
        }
    }

    open spec fn debug_text(value: RemCall) -> Seq<char> {
        "RemCall { remote_ip_v4: "@
            + value.remote_ip_v4.debug_text()
            + ", remote_ip_v6: "@
            + value.remote_ip_v6.debug_text()
            + " }"@
    }

    fn debug_string(&self) -> (text: String) {
        let mut text = String::from_str("RemCall { remote_ip_v4: ");
        text.append(self.remote_ip_v4.debug_string().as_str());
        text.append(", remote_ip_v6: ");
        text.append(self.remote_ip_v6.debug_string().as_str());
        text.append(" }");
        text
    }

    fn into_union(self) -> (union: Package) {
        let union = Package::RemCall(self);
        assert(union@ == PackageView::RemCall(self@));
        union
    }

    fn from_union(union: Package) -> (r: Option<RemCall>) {
        match union {
            Package::RemCall(value) => Some(value),
            _ => None,
        }
    }

    fn union_ref(union: &Package) -> (r: Option<&RemCall>) {
        match union {
            Package::RemCall(value) => Some(value),
            _ => None,
        }
    }

    fn union_mut(union: &mut Package) -> (r: Option<&mut RemCall>) {
        match union {
            Package::RemCall(value) => Some(value),
            _ => None,
        }
    }

    proof fn lemma_variant() {
        assert(Self::VARIANT == Centralex::RemCall);
    }

    proof fn lemma_wire_len(value: RemCall) {
    }

    proof fn lemma_round_trip(value: RemCall, tail: Seq<u8>) {
        let bytes = Self::wire(value) + tail;
        assert(bytes.subrange(0, 4) =~= value.remote_ip_v4.wire());
        value.remote_ip_v4.lemma_round_trip();
        assert(bytes.subrange(4, 20) =~= value.remote_ip_v6.wire());
        value.remote_ip_v6.lemma_round_trip();
    }

    proof fn lemma_project(union: PackageView) {
        assert(Centralex::class_of(union) == Centralex::RemCall <==> union is RemCall);
    }

    proof fn lemma_inject(value: RemCall) {
    }
}

impl From<Box<RemCall>> for crate::Package<Centralex> {
    /// Wraps a boxed body, as [`crate::Package::from_box`] does.
    fn from(pkg: Box<RemCall>) -> (package: Self)
        ensures
            package@ == RemCall::inject((*pkg)@),
    {
        crate::Package::from_box(pkg)
    }
}

/// The conversion is pinned by the contract of `from` itself, over the
/// package's view.
impl FromSpecImpl<Box<RemCall>> for crate::Package<Centralex> {
    open spec fn obeys_from_spec() -> bool {
        false
    }

    open spec fn from_spec(pkg: Box<RemCall>) -> Self {
        arbitrary()
    }
}

impl TryFrom<crate::Package<Centralex>> for RemCall {
    type Error = ();

    /// Takes the body out of a package of this kind. A package of another
    /// kind is an error.
    fn try_from(pkg: crate::Package<Centralex>) -> (r: Result<RemCall, ()>)
        ensures
            r is Ok <==> RemCall::project(pkg@) is Some,
            r matches Ok(body) ==> Some(body@) == RemCall::project(pkg@),
    {
        proof {
            RemCall::lemma_project(pkg@);
        }
        match pkg.downcast::<RemCall>() {
            Some(body) => Ok(*body),
            None => Err(()),
        }
    }
}

/// The conversion is pinned by the contract of `try_from` itself, over the
/// views of package and body.
impl TryFromSpecImpl<crate::Package<Centralex>> for RemCall {
    open spec fn obeys_try_from_spec() -> bool {
        false
    }

    open spec fn try_from_spec(pkg: crate::Package<Centralex>) -> Result<RemCall, ()> {
        arbitrary()
    }
}

/// The terminal takes the announced call. It has no body.
#[derive(Debug, Clone, PartialEq, Eq, Structural)]
pub struct RemAck {}

impl View for RemAck {
    type V = RemAck;

    open spec fn view(&self) -> RemAck {
        *self
    }
}

impl PackageBody for RemAck {
    type Class = Centralex;

    const VARIANT: Centralex = Centralex::RemAck;

    open spec fn variant() -> Centralex {
        Centralex::RemAck
    }

    open spec fn wire(value: RemAck) -> Seq<u8> {
        Seq::empty()
    }

    open spec fn parse(bytes: Seq<u8>) -> Option<RemAck> {
        Some(RemAck {})
    }

    open spec fn round_trips(value: RemAck) -> bool {
        true
    }

    open spec fn inject(value: RemAck) -> PackageView {
        PackageView::RemAck(value)
    }

    open spec fn project(union: PackageView) -> Option<RemAck> {
        match union {
            PackageView::RemAck(value) => Some(value),
            _ => None,
        }
    }

    fn serialize_body(&self, writer: &mut Vec<u8>) {
        assert(writer@ =~= old(writer)@ + Self::wire(self@));
    }

    fn deserialize_body(bytes: &[u8]) -> (r: Result<RemAck, CodecError>) {
        Ok(RemAck {})
    }

    open spec fn debug_text(value: RemAck) -> Seq<char> {
        "RemAck"@
    }

    fn debug_string(&self) -> (text: String) {
        String::from_str("RemAck")
    }

    fn into_union(self) -> (union: Package) {
        let union = Package::RemAck(self);
        assert(union@ == PackageView::RemAck(self@));
        union
    }

    fn from_union(union: Package) -> (r: Option<RemAck>) {
        match union {
            Package::RemAck(value) => Some(value),
            _ => None,
        }
    }

    fn union_ref(union: &Package) -> (r: Option<&RemAck>) {
        match union {
            Package::RemAck(value) => Some(value),
            _ => None,
        }
    }

    fn union_mut(union: &mut Package) -> (r: Option<&mut RemAck>) {
        match union {
            Package::RemAck(value) => Some(value),
            _ => None,
        }
    }

    proof fn lemma_variant() {
        assert(Self::VARIANT == Centralex::RemAck);
    }

    proof fn lemma_wire_len(value: RemAck) {
    }

    proof fn lemma_round_trip(value: RemAck, tail: Seq<u8>) {
    }

    proof fn lemma_project(union: PackageView) {
        assert(Centralex::class_of(union) == Centralex::RemAck <==> union is RemAck);
    }

    proof fn lemma_inject(value: RemAck) {
    }
}

impl From<Box<RemAck>> for crate::Package<Centralex> {
    /// Wraps a boxed body, as [`crate::Package::from_box`] does.
    fn from(pkg: Box<RemAck>) -> (package: Self)
        ensures
            package@ == RemAck::inject((*pkg)@),
    {
        crate::Package::from_box(pkg)
    }
}

/// The conversion is pinned by the contract of `from` itself, over the
/// package's view.
impl FromSpecImpl<Box<RemAck>> for crate::Package<Centralex> {
    open spec fn obeys_from_spec() -> bool {
        false
    }

    open spec fn from_spec(pkg: Box<RemAck>) -> Self {
        arbitrary()
    }
}

impl TryFrom<crate::Package<Centralex>> for RemAck {
    type Error = ();

    /// Takes the body out of a package of this kind. A package of another
    /// kind is an error.
    fn try_from(pkg: crate::Package<Centralex>) -> (r: Result<RemAck, ()>)
        ensures
            r is Ok <==> RemAck::project(pkg@) is Some,
            r matches Ok(body) ==> Some(body@) == RemAck::project(pkg@),
    {
        proof {
            RemAck::lemma_project(pkg@);
        }
        match pkg.downcast::<RemAck>() {
            Some(body) => Ok(*body),
            None => Err(()),
        }
    }
}

/// The conversion is pinned by the contract of `try_from` itself, over the
/// views of package and body.
impl TryFromSpecImpl<crate::Package<Centralex>> for RemAck {
    open spec fn obeys_try_from_spec() -> bool {
        false
    }

    open spec fn try_from_spec(pkg: crate::Package<Centralex>) -> Result<RemAck, ()> {
        arbitrary()
    }
}

} // verus!
