//! Text in the fixed 40-byte field of the directory packages.
use vstd::prelude::*;
use vstd::std_specs::convert::FromSpecImpl;
use vstd::string::StringExecFns;
use crate::codec::{
    decode_fixed40,
    encode_fixed40,
    fitting_prefix,
    fitting_str,
    fixed40_text,
    fixed40_wire,
    FIXED40_LEN,
    FIXED40_MAX_CONTENT,
};
use crate::render::{quoted, str_debug};

verus! {

/// A text that travels in a field of exactly 40 bytes: at most 39 bytes of
/// it, and zeros behind them.
///
/// The conversions from a text keep the longest beginning of it that takes
/// at most 39 bytes, whole characters only. The field of the struct is open:
/// a text that was put there directly, or read from a field that holds no
/// zero or bytes that are not UTF-8, can be longer, and is cut to 39 bytes
/// when the field is written.
#[derive(Debug, Eq, PartialEq, Clone)]
pub struct String40Bytes(pub String);

impl View for String40Bytes {
    type V = Seq<char>;

    /// The text.
    open spec fn view(&self) -> Seq<char> {
        self.0@
    }
}

impl From<String> for String40Bytes {
    /// Keeps the longest beginning of the text that takes at most 39 bytes.
    fn from(string: String) -> (text: String40Bytes)
        ensures
            text@ == fitting_prefix(string@, FIXED40_MAX_CONTENT as nat),
    {
        String40Bytes(fitting_str(string.as_str(), FIXED40_MAX_CONTENT).to_owned())
    }
}

/// The conversion is pinned by the contract of `from` itself, over the
/// text's view: the new `String` is known by its characters alone.
impl FromSpecImpl<String> for String40Bytes {
    open spec fn obeys_from_spec() -> bool {
        false
    }

    open spec fn from_spec(string: String) -> String40Bytes {
        arbitrary()
    }
}

impl From<&str> for String40Bytes {
    /// Keeps the longest beginning of the text that takes at most 39 bytes.
    fn from(string: &str) -> (text: String40Bytes)
        ensures
            text@ == fitting_prefix(string@, FIXED40_MAX_CONTENT as nat),
    {
        String40Bytes(fitting_str(string, FIXED40_MAX_CONTENT).to_owned())
    }
}

/// The conversion is pinned by the contract of `from` itself, over the
/// text's view: the new `String` is known by its characters alone.
impl FromSpecImpl<&str> for String40Bytes {
    open spec fn obeys_from_spec() -> bool {
        false
    }

    open spec fn from_spec(string: &str) -> String40Bytes {
        arbitrary()
    }
}

impl Default for String40Bytes {
    /// The empty text.
    fn default() -> (text: String40Bytes)
        ensures
            text@ == Seq::<char>::empty(),
    {
        String40Bytes(String::new())
    }
}

impl core::ops::Deref for String40Bytes {
    type Target = String;

    /// The text.
    fn deref(&self) -> (text: &String)
        ensures
            text@ == self@,
    {
        &self.0
    }
}

impl core::ops::DerefMut for String40Bytes {
    /// The text, for writing.
    fn deref_mut(&mut self) -> (text: &mut String)
        ensures
            *text == old(self).0,
            final(self).0 == *final(text),
    {
        &mut self.0
    }
}

impl String40Bytes {
    /// The text, as it would be printed.
    pub fn to_string(&self) -> (text: String)
        ensures
            text@ == self@,
    {
        self.0.clone()
    }

    /// The diagnostic text of a text of this type: the type's name, and in
    /// round brackets the text in quotes.
    pub open spec fn debug_text(text: Seq<char>) -> Seq<char> {
        "String40Bytes("@ + str_debug(text) + ")"@
    }

    /// Writes the text out for diagnostics.
    pub fn debug_string(&self) -> (text: String)
        ensures
            text@ == String40Bytes::debug_text(self@),
    {
        let mut text = String::from_str("String40Bytes(");
        text.append(quoted(self.0.as_str()).as_str());
        text.append(")");
        text
    }

    /// Appends the field: 40 bytes.
    pub fn serialize(&self, writer: &mut Vec<u8>)
        ensures
            final(writer)@ == old(writer)@ + fixed40_wire(self@),
    {
        let mut bytes = encode_fixed40(self.0.as_str());
        writer.append(&mut bytes);
    }

    /// The text in the field of 40 bytes from `at`, or `None` where the
    /// buffer ends before the field does.
    pub fn deserialize(bytes: &[u8], at: usize) -> (r: Option<String40Bytes>)
        ensures
            r is Some <==> at + FIXED40_LEN <= bytes@.len(),
            r matches Some(text) ==> text@ == fixed40_text(
                bytes@.subrange(at as int, at + FIXED40_LEN),
            ),
    {
        if at > bytes.len() || bytes.len() - at < FIXED40_LEN {
            None
        } else {
            Some(
                String40Bytes(
                    decode_fixed40(vstd::slice::slice_subrange(bytes, at, at + FIXED40_LEN)),
                ),
            )
        }
    }
}

} // verus!
