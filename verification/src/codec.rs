//! Encodings of the values that package bodies are made of: little-endian
//! integers, the fixed 40-byte text field and the zero-terminated text
//! field.
use vstd::prelude::*;
use vstd::slice::{slice_subrange, slice_to_vec};
use vstd::utf8::{
    decode_first_scalar,
    decode_utf8,
    encode_scalar,
    encode_utf8,
    is_ascii_chars,
    is_char_boundary,
    is_continuation_byte,
    length_of_first_scalar,
    pop_first_scalar,
    valid_utf8,
};

verus! {

/// Width of the fixed text field on the wire.
pub const FIXED40_LEN: usize = 40;

/// Most content bytes that the fixed text field can hold; at least one byte
/// of the field is always a zero.
pub const FIXED40_MAX_CONTENT: usize = 39;

/// Most content bytes of a zero-terminated text, so that content and
/// terminator together fit the header's one-byte length.
pub const CAPPED_MAX_CONTENT: usize = 254;

/// Little-endian image of a 16-bit value.
pub open spec fn u16_le(value: u16) -> Seq<u8> {
    seq![(value % 256) as u8, (value / 256) as u8]
}

/// Little-endian image of a 32-bit value.
pub open spec fn u32_le(value: u32) -> Seq<u8> {
    seq![
        (value % 256) as u8,
        (value / 256 % 256) as u8,
        (value / 65536 % 256) as u8,
        (value / 16777216) as u8,
    ]
}

/// The 16-bit value whose little-endian image starts `bytes`.
pub open spec fn u16_from_le(bytes: Seq<u8>) -> u16
    recommends
        bytes.len() >= 2,
{
    (bytes[0] + 256 * bytes[1]) as u16
}

/// The 32-bit value whose little-endian image starts `bytes`.
pub open spec fn u32_from_le(bytes: Seq<u8>) -> u32
    recommends
        bytes.len() >= 4,
{
    (bytes[0] + 256 * bytes[1] + 65536 * bytes[2] + 16777216 * bytes[3]) as u32
}

/// Reading back the image of a 16-bit value gives the value.
pub proof fn lemma_u16_round_trip(value: u16)
    ensures
        u16_le(value).len() == 2,
        u16_from_le(u16_le(value)) == value,
{
}

/// Reading back the image of a 32-bit value gives the value.
pub proof fn lemma_u32_round_trip(value: u32)
    ensures
        u32_le(value).len() == 4,
        u32_from_le(u32_le(value)) == value,
{
    let high = value / 256;
    let higher = high / 256;
    assert(value == value % 256 + 256 * high);
    assert(high == high % 256 + 256 * higher);
    assert(higher == higher % 256 + 256 * (higher / 256));
    assert(value / 65536 == higher);
    assert(value / 16777216 == higher / 256);
}

/// `binserde::serialize` on a `u16`. In its default mode the crate writes a
/// fixed-width integer as its little-endian bytes into a fresh buffer, which
/// cannot fail.
#[verifier::external_body]
fn scalar_bytes_u16(value: u16) -> (r: Option<Vec<u8>>)
    ensures
        r is Some,
        r matches Some(bytes) ==> bytes@ == u16_le(value),
{
    binserde::serialize(&value).ok()
}

/// `binserde::serialize` on a `u32`. In its default mode the crate writes a
/// fixed-width integer as its little-endian bytes into a fresh buffer, which
/// cannot fail.
#[verifier::external_body]
fn scalar_bytes_u32(value: u32) -> (r: Option<Vec<u8>>)
    ensures
        r is Some,
        r matches Some(bytes) ==> bytes@ == u32_le(value),
{
    binserde::serialize(&value).ok()
}

/// `binserde::deserialize` into a `u16`. In its default mode the crate reads
/// exactly two bytes from the front of the buffer, fails when fewer are
/// there, and takes them as a little-endian value.
#[verifier::external_body]
fn scalar_from_bytes_u16(bytes: &[u8]) -> (r: Option<u16>)
    ensures
        r is Some <==> bytes@.len() >= 2,
        r matches Some(value) ==> value == u16_from_le(bytes@),
{
    binserde::deserialize(bytes).ok()
}

/// `binserde::deserialize` into a `u32`. In its default mode the crate reads
/// exactly four bytes from the front of the buffer, fails when fewer are
/// there, and takes them as a little-endian value.
#[verifier::external_body]
fn scalar_from_bytes_u32(bytes: &[u8]) -> (r: Option<u32>)
    ensures
        r is Some <==> bytes@.len() >= 4,
        r matches Some(value) ==> value == u32_from_le(bytes@),
{
    binserde::deserialize(bytes).ok()
}

/// Appends one byte.
pub fn write_u8(value: u8, writer: &mut Vec<u8>)
    ensures
        final(writer)@ == old(writer)@ + seq![value],
{
    writer.push(value);
    assert(writer@ =~= old(writer)@ + seq![value]);
}

/// Appends a 16-bit value, low byte first.
pub fn write_u16(value: u16, writer: &mut Vec<u8>)
    ensures
        final(writer)@ == old(writer)@ + u16_le(value),
{
    if let Some(mut bytes) = scalar_bytes_u16(value) {
        writer.append(&mut bytes);
    }
}

/// Appends a 32-bit value, low byte first.
pub fn write_u32(value: u32, writer: &mut Vec<u8>)
    ensures
        final(writer)@ == old(writer)@ + u32_le(value),
{
    if let Some(mut bytes) = scalar_bytes_u32(value) {
        writer.append(&mut bytes);
    }
}

/// The byte at `at`, or `None` past the end.
pub fn read_u8(bytes: &[u8], at: usize) -> (r: Option<u8>)
    ensures
        r == if at < bytes@.len() {
            Some(bytes@[at as int])
        } else {
            None
        },
{
    if at < bytes.len() {
        Some(bytes[at])
    } else {
        None
    }
}

/// The little-endian 16-bit value in the two bytes from `at`, or `None`
/// where the buffer ends before both.
pub fn read_u16(bytes: &[u8], at: usize) -> (r: Option<u16>)
    ensures
        r == if at + 2 <= bytes@.len() {
            Some(u16_from_le(bytes@.subrange(at as int, at + 2)))
        } else {
            None
        },
{
    if at > bytes.len() || bytes.len() - at < 2 {
        return None;
    }
    scalar_from_bytes_u16(slice_subrange(bytes, at, at + 2))
}

/// The little-endian 32-bit value in the four bytes from `at`, or `None`
/// where the buffer ends before all four.
pub fn read_u32(bytes: &[u8], at: usize) -> (r: Option<u32>)
    ensures
        r == if at + 4 <= bytes@.len() {
            Some(u32_from_le(bytes@.subrange(at as int, at + 4)))
        } else {
            None
        },
{
    if at > bytes.len() || bytes.len() - at < 4 {
        return None;
    }
    scalar_from_bytes_u32(slice_subrange(bytes, at, at + 4))
}

/// `bytes`, cut off after `max` of them.
pub open spec fn clip(bytes: Seq<u8>, max: nat) -> Seq<u8> {
    if bytes.len() > max {
        bytes.subrange(0, max as int)
    } else {
        bytes
    }
}

/// `count` zero bytes.
pub open spec fn zeros(count: nat) -> Seq<u8> {
    Seq::new(count, |i: int| 0u8)
}

/// Number of bytes in front of the first zero byte, or all of them where
/// none is zero.
pub open spec fn content_len(bytes: Seq<u8>) -> nat
    decreases bytes.len(),
{
    if bytes.len() == 0 || bytes[0] == 0 {
        0
    } else {
        1 + content_len(bytes.drop_first())
    }
}

/// The bytes in front of the first zero byte.
pub open spec fn content(bytes: Seq<u8>) -> Seq<u8> {
    bytes.subrange(0, content_len(bytes) as int)
}

/// What `String::from_utf8_lossy` makes of bytes that are not valid UTF-8:
/// the text with a replacement character for each invalid sequence.
pub uninterp spec fn utf8_lossy(bytes: Seq<u8>) -> Seq<char>;

/// The text that bytes are read as: their decoding where they are valid
/// UTF-8, and otherwise the text with replacement characters.
pub open spec fn lossy_text(bytes: Seq<u8>) -> Seq<char> {
    if valid_utf8(bytes) {
        decode_utf8(bytes)
    } else {
        utf8_lossy(bytes)
    }
}

/// Wire image of a text in the fixed field: its UTF-8 bytes, at most 39 of
/// them, then zeros up to 40 bytes.
pub open spec fn fixed40_wire(text: Seq<char>) -> Seq<u8> {
    let kept = clip(encode_utf8(text), FIXED40_MAX_CONTENT as nat);
    kept + zeros((FIXED40_LEN - kept.len()) as nat)
}

/// The text in a fixed field: what stands in front of the first zero among
/// its first 40 bytes.
pub open spec fn fixed40_text(bytes: Seq<u8>) -> Seq<char> {
    lossy_text(content(clip(bytes, FIXED40_LEN as nat)))
}

/// Wire image of a zero-terminated text: its UTF-8 bytes, at most 254 of
/// them, then one zero.
pub open spec fn capped_wire(text: Seq<char>) -> Seq<u8> {
    clip(encode_utf8(text), CAPPED_MAX_CONTENT as nat) + seq![0u8]
}

/// The text in a zero-terminated field: what stands in front of the first
/// zero, or all of it where no zero follows.
pub open spec fn capped_text(bytes: Seq<u8>) -> Seq<char> {
    lossy_text(content(bytes))
}

/// The longest beginning of a text whose UTF-8 bytes are at most `max`: the
/// text itself where it fits, and else the text without as many of its last
/// characters as do not fit.
pub open spec fn fitting_prefix(text: Seq<char>, max: nat) -> Seq<char>
    decreases text.len(),
{
    if text.len() == 0 || encode_utf8(text).len() <= max {
        text
    } else {
        fitting_prefix(text.drop_last(), max)
    }
}

/// Whether a text comes back unchanged from a field that holds at most
/// `max` content bytes: it fits, and none of its bytes is the terminator.
pub open spec fn text_fits(text: Seq<char>, max: nat) -> bool {
    &&& encode_utf8(text).len() <= max
    &&& forall|i: int| 0 <= i < encode_utf8(text).len() ==> encode_utf8(text)[i] != 0
}

/// `content_len` is the place of the first zero byte: no byte in front of
/// it is zero, and it is the length or the index of a zero.
pub proof fn lemma_content_len(bytes: Seq<u8>)
    ensures
        content_len(bytes) <= bytes.len(),
        forall|i: int| 0 <= i < content_len(bytes) ==> bytes[i] != 0,
        content_len(bytes) < bytes.len() ==> bytes[content_len(bytes) as int] == 0,
    decreases bytes.len(),
{
    if bytes.len() == 0 || bytes[0] == 0 {
    } else {
        let rest = bytes.drop_first();
        lemma_content_len(rest);
        assert forall|i: int| 0 <= i < content_len(bytes) implies bytes[i] != 0 by {
            if i > 0 {
                assert(bytes[i] == rest[i - 1]);
            }
        }
        if content_len(bytes) < bytes.len() {
            assert(bytes[content_len(bytes) as int] == rest[content_len(rest) as int]);
        }
    }
}

/// The place of the first zero byte is `content_len`: an index with no zero
/// in front of it, which is the length or holds a zero.
pub proof fn lemma_content_len_is(bytes: Seq<u8>, n: int)
    requires
        0 <= n <= bytes.len(),
        forall|i: int| 0 <= i < n ==> bytes[i] != 0,
        n < bytes.len() ==> bytes[n] == 0,
    ensures
        content_len(bytes) == n,
    decreases bytes.len(),
{
    if n > 0 {
        let rest = bytes.drop_first();
        assert forall|i: int| 0 <= i < n - 1 implies rest[i] != 0 by {
            assert(rest[i] == bytes[i + 1]);
        }
        lemma_content_len_is(rest, n - 1);
    }
}

/// `String::from_utf8_lossy`, made into an owned `String`. Valid UTF-8 comes
/// back as the text it encodes; for other input the result is the one that
/// `utf8_lossy` names.
#[verifier::external_body]
fn text_from_utf8_lossy(bytes: &[u8]) -> (text: String)
    ensures
        valid_utf8(bytes@) ==> text@ == decode_utf8(bytes@),
        !valid_utf8(bytes@) ==> text@ == utf8_lossy(bytes@),
{
    String::from_utf8_lossy(bytes).into_owned()
}

/// Index of the first zero byte, or the length where there is none.
fn content_end(bytes: &[u8]) -> (n: usize)
    ensures
        n == content_len(bytes@),
        n <= bytes@.len(),
{
    let mut n: usize = 0;
    while n < bytes.len() && bytes[n] != 0
        invariant
            n <= bytes@.len(),
            forall|i: int| 0 <= i < n ==> bytes@[i] != 0,
        decreases bytes@.len() - n,
    {
        n += 1;
    }
    proof {
        lemma_content_len_is(bytes@, n as int);
    }
    n
}

/// The first `max` UTF-8 bytes of `text`, or all of them where it has fewer.
fn clipped_bytes(text: &str, max: usize) -> (bytes: Vec<u8>)
    ensures
        bytes@ == clip(encode_utf8(text@), max as nat),
{
    let raw = text.as_bytes();
    if raw.len() > max {
        slice_to_vec(slice_subrange(raw, 0, max))
    } else {
        slice_to_vec(raw)
    }
}

/// Encodes a text as a fixed field: at most 39 bytes of it, filled up with
/// zeros to exactly 40 bytes.
pub fn encode_fixed40(text: &str) -> (bytes: Vec<u8>)
    ensures
        bytes@ == fixed40_wire(text@),
        bytes@.len() == FIXED40_LEN,
{
    let mut bytes = clipped_bytes(text, FIXED40_MAX_CONTENT);
    let ghost kept = bytes@;
    while bytes.len() < FIXED40_LEN
        invariant
            kept.len() <= bytes@.len() <= FIXED40_LEN,
            bytes@ == kept + zeros((bytes@.len() - kept.len()) as nat),
        decreases FIXED40_LEN - bytes@.len(),
    {
        bytes.push(0);
        assert(bytes@ =~= kept + zeros((bytes@.len() - kept.len()) as nat));
    }
    bytes
}

/// Decodes a fixed field: the text in front of the first zero among the
/// first 40 bytes, with a replacement character for what is not UTF-8.
pub fn decode_fixed40(bytes: &[u8]) -> (text: String)
    ensures
        text@ == fixed40_text(bytes@),
{
    let field = if bytes.len() > FIXED40_LEN {
        slice_subrange(bytes, 0, FIXED40_LEN)
    } else {
        bytes
    };
    let end = content_end(field);
    text_from_utf8_lossy(slice_subrange(field, 0, end))
}

/// Encodes a text as a zero-terminated field: at most 254 bytes of it, and
/// one zero byte.
pub fn encode_capped_string(text: &str) -> (bytes: Vec<u8>)
    ensures
        bytes@ == capped_wire(text@),
        1 <= bytes@.len() <= CAPPED_MAX_CONTENT + 1,
{
    let mut bytes = clipped_bytes(text, CAPPED_MAX_CONTENT);
    let ghost kept = bytes@;
    bytes.push(0);
    assert(bytes@ =~= kept + seq![0u8]);
    bytes
}

/// The number of bytes that a text takes as a zero-terminated field: its
/// content, at most 254 bytes of it, and the terminator.
pub fn capped_length(text: &str) -> (length: u8)
    ensures
        length == capped_wire(text@).len(),
{
    let raw = text.as_bytes();
    if raw.len() > CAPPED_MAX_CONTENT {
        (CAPPED_MAX_CONTENT + 1) as u8
    } else {
        (raw.len() + 1) as u8
    }
}

/// Decodes a zero-terminated field: the text in front of the first zero
/// byte, whatever follows it, or all of the buffer where no zero follows;
/// with a replacement character for what is not UTF-8.
pub fn decode_capped_string(bytes: &[u8]) -> (text: String)
    ensures
        text@ == capped_text(bytes@),
{
    let end = content_end(bytes);
    text_from_utf8_lossy(slice_subrange(bytes, 0, end))
}

/// The bytes of two texts in a row are the bytes of the first and then the
/// bytes of the second.
pub proof fn lemma_encode_utf8_concat(first: Seq<char>, second: Seq<char>)
    ensures
        encode_utf8(first + second) == encode_utf8(first) + encode_utf8(second),
    decreases first.len(),
{
    if first.len() == 0 {
        assert(first + second =~= second);
        assert(encode_utf8(first) + encode_utf8(second) =~= encode_utf8(second));
    } else {
        let whole = first + second;
        assert(whole[0] == first[0]);
        assert(whole.drop_first() =~= first.drop_first() + second);
        lemma_encode_utf8_concat(first.drop_first(), second);
        assert(encode_utf8(whole) =~= encode_utf8(first) + encode_utf8(second));
    }
}

/// The longest fitting beginning of a text is a beginning of the text and
/// fits; it is the whole text where that fits; and no beginning of the text
/// that fits is longer.
pub proof fn lemma_fitting_prefix(text: Seq<char>, max: nat)
    ensures
        fitting_prefix(text, max).is_prefix_of(text),
        encode_utf8(fitting_prefix(text, max)).len() <= max,
        encode_utf8(text).len() <= max ==> fitting_prefix(text, max) == text,
        forall|other: Seq<char>|
            other.is_prefix_of(text) && encode_utf8(other).len() <= max ==> other.len()
                <= fitting_prefix(text, max).len(),
    decreases text.len(),
{
    if text.len() == 0 || encode_utf8(text).len() <= max {
        assert(text.is_prefix_of(text));
    } else {
        let shorter = text.drop_last();
        lemma_fitting_prefix(shorter, max);
        assert forall|other: Seq<char>|
            other.is_prefix_of(text) && encode_utf8(other).len() <= max implies other.len()
            <= fitting_prefix(text, max).len() by {
            if other.len() == text.len() {
                assert(other =~= text);
            } else {
                assert(other.is_prefix_of(shorter));
            }
        }
    }
}

/// Of a text of ASCII characters, which take one byte each, the longest
/// fitting beginning is the first `max` characters, or the whole text where
/// it has no more.
pub proof fn lemma_fitting_prefix_ascii(text: Seq<char>, max: nat)
    requires
        is_ascii_chars(text),
    ensures
        fitting_prefix(text, max) == if text.len() <= max {
            text
        } else {
            text.subrange(0, max as int)
        },
    decreases text.len(),
{
    vstd::utf8::is_ascii_chars_encode_utf8(text);
    if text.len() > max {
        let shorter = text.drop_last();
        lemma_fitting_prefix_ascii(shorter, max);
        if shorter.len() > max {
            assert(shorter.subrange(0, max as int) =~= text.subrange(0, max as int));
        } else {
            assert(shorter =~= text.subrange(0, max as int));
        }
    }
}

/// A beginning of a text that fits, and that no longer fits with the text's
/// next character, is the longest fitting beginning.
proof fn lemma_fitting_prefix_is(head: Seq<char>, rest: Seq<char>, max: nat)
    requires
        encode_utf8(head).len() <= max,
        rest.len() > 0 ==> encode_utf8(head.push(rest[0])).len() > max,
    ensures
        fitting_prefix(head + rest, max) == head,
    decreases rest.len(),
{
    let text = head + rest;
    if rest.len() == 0 {
        assert(text =~= head);
    } else {
        let next = head.push(rest[0]);
        let after = rest.drop_first();
        assert(text =~= next + after);
        lemma_encode_utf8_concat(next, after);
        assert(encode_utf8(text).len() > max);
        assert(text.drop_last() =~= head + rest.drop_last());
        if rest.drop_last().len() > 0 {
            assert(rest.drop_last()[0] == rest[0]);
        }
        lemma_fitting_prefix_is(head, rest.drop_last(), max);
    }
}

/// The longest beginning of a text whose UTF-8 bytes are at most `max`. The
/// cut never falls inside a character.
pub fn fitting_str(text: &str, max: usize) -> (head: &str)
    ensures
        head@ == fitting_prefix(text@, max as nat),
{
    let len = text.as_bytes().len();
    if len <= max {
        return text;
    }
    let ghost bytes = encode_utf8(text@);
    proof {
        vstd::utf8::encode_utf8_valid_utf8(text@);
    }
    let mut cut = max;
    while !text.is_char_boundary(cut)
        invariant
            bytes == encode_utf8(text@),
            valid_utf8(bytes),
            cut <= max < bytes.len(),
            forall|j: int| cut < j <= max ==> !is_char_boundary(bytes, j),
        decreases cut,
    {
        cut = cut - 1;
    }
    let (head, _) = text.split_at(cut);
    proof {
        let first = bytes.subrange(0, cut as int);
        let second = bytes.subrange(cut as int, bytes.len() as int);
        assert(encode_utf8(head@) == first);
        vstd::utf8::valid_utf8_split(bytes, cut as int);
        vstd::utf8::decode_utf8_split(bytes, cut as int);
        vstd::utf8::encode_utf8_decode_utf8(text@);
        vstd::utf8::encode_utf8_decode_utf8(head@);
        let rest = decode_utf8(second);
        assert(text@ == head@ + rest);
        assert(rest.len() > 0);
        let width = length_of_first_scalar(second);
        vstd::utf8::decode_utf8_first_scalar(second);
        assert(encode_scalar(rest[0] as u32).len() == width);
        if cut + width <= max {
            let behind = pop_first_scalar(second);
            assert(valid_utf8(behind));
            assert(behind.len() > 0);
            assert(behind[0] == bytes[cut + width]);
            assert(!is_continuation_byte(behind[0]));
            vstd::utf8::is_char_boundary_iff_not_is_continuation_byte(bytes, cut + width);
            assert(false);
        }
        lemma_encode_utf8_concat(head@, seq![rest[0]]);
        assert(head@.push(rest[0]) =~= head@ + seq![rest[0]]);
        assert(encode_utf8(seq![rest[0]]) =~= encode_scalar(rest[0] as u32)) by {
            reveal_with_fuel(encode_utf8, 2);
            assert(seq![rest[0]].drop_first() =~= Seq::<char>::empty());
        }
        lemma_fitting_prefix_is(head@, rest, max as nat);
    }
    head
}

/// The fixed field is 40 bytes wide whatever the text. It starts with the
/// text's first bytes, at most 39 of them, and every byte behind them is
/// zero, the last byte of the field among them.
pub proof fn lemma_fixed40_wire_len(text: Seq<char>)
    ensures
        fixed40_wire(text).len() == FIXED40_LEN,
        fixed40_wire(text)[FIXED40_LEN - 1] == 0,
        forall|i: int|
            0 <= i < FIXED40_LEN ==> #[trigger] fixed40_wire(text)[i] == if i < encode_utf8(
                text,
            ).len() && i < FIXED40_MAX_CONTENT {
                encode_utf8(text)[i]
            } else {
                0u8
            },
{
}

/// The zero-terminated field holds the text's first bytes, at most 254 of
/// them, and ends with its only added byte, a zero. It is never longer than
/// 255 bytes.
pub proof fn lemma_capped_wire_len(text: Seq<char>)
    ensures
        encode_utf8(text).len() <= CAPPED_MAX_CONTENT ==> capped_wire(text).len()
            == encode_utf8(text).len() + 1,
        encode_utf8(text).len() > CAPPED_MAX_CONTENT ==> capped_wire(text).len()
            == CAPPED_MAX_CONTENT + 1,
        capped_wire(text).len() <= 255,
        capped_wire(text).last() == 0,
        forall|i: int|
            0 <= i < capped_wire(text).len() - 1 ==> #[trigger] capped_wire(text)[i]
                == encode_utf8(text)[i],
{
}

/// Reading a zero-terminated field stops at the first zero byte: what
/// follows it, zero or not, plays no part.
pub proof fn lemma_capped_text_stops(head: Seq<u8>, tail: Seq<u8>)
    requires
        forall|i: int| 0 <= i < head.len() ==> head[i] != 0,
    ensures
        capped_text(head + seq![0u8] + tail) == lossy_text(head),
        capped_text(head) == lossy_text(head),
{
    let bytes = head + seq![0u8] + tail;
    lemma_content_len_is(bytes, head.len() as int);
    assert(content(bytes) =~= head);
    lemma_content_len_is(head, head.len() as int);
    assert(content(head) =~= head);
}

/// A text that fits the fixed field comes back from it unchanged.
pub proof fn lemma_fixed40_round_trip(text: Seq<char>)
    requires
        text_fits(text, FIXED40_MAX_CONTENT as nat),
    ensures
        fixed40_text(fixed40_wire(text)) == text,
{
    let raw = encode_utf8(text);
    let wire = fixed40_wire(text);
    assert(wire.len() == FIXED40_LEN);
    assert(clip(wire, FIXED40_LEN as nat) == wire);
    lemma_content_len_is(wire, raw.len() as int);
    assert(content(wire) =~= raw);
    vstd::utf8::encode_utf8_valid_utf8(text);
    vstd::utf8::encode_utf8_decode_utf8(text);
}

/// A text that fits the zero-terminated field comes back from it unchanged,
/// whatever bytes follow the terminator.
pub proof fn lemma_capped_round_trip(text: Seq<char>, tail: Seq<u8>)
    requires
        text_fits(text, CAPPED_MAX_CONTENT as nat),
    ensures
        capped_text(capped_wire(text) + tail) == text,
{
    let raw = encode_utf8(text);
    let wire = capped_wire(text) + tail;
    lemma_content_len_is(wire, raw.len() as int);
    assert(content(wire) =~= raw);
    vstd::utf8::encode_utf8_valid_utf8(text);
    vstd::utf8::encode_utf8_decode_utf8(text);
}

} // verus!
