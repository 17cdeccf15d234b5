use itelex::addr::{Ipv4Addr, Ipv6Addr};
use itelex::codec::{
    capped_length, decode_capped_string, decode_fixed40, encode_capped_string, encode_fixed40,
    fitting_str, read_u16, read_u32, read_u8, write_u16, write_u32, write_u8,
};
use itelex::error::CodecError;
use itelex::frame::{read_frame, read_header, write_header};
use itelex::server::String40Bytes;

#[test]
fn integers_are_written_low_byte_first() {
    let mut out = Vec::new();
    write_u8(0xab, &mut out);
    write_u16(0x1234, &mut out);
    write_u32(0xdead_beef, &mut out);
    assert_eq!(out, vec![0xab, 0x34, 0x12, 0xef, 0xbe, 0xad, 0xde]);
    assert_eq!(read_u8(&out, 0), Some(0xab));
    assert_eq!(read_u16(&out, 1), Some(0x1234));
    assert_eq!(read_u32(&out, 3), Some(0xdead_beef));
}

#[test]
fn integer_boundaries_round_trip() {
    for value in [0u16, 1, 0x00ff, 0x0100, 0x7fff, 0x8000, u16::MAX] {
        let mut out = Vec::new();
        write_u16(value, &mut out);
        assert_eq!(out, value.to_le_bytes().to_vec());
        assert_eq!(read_u16(&out, 0), Some(value));
    }
    for value in [0u32, 1, 0xff, 0x100, 0xffff, 0x1_0000, 0xff_ffff, 0x100_0000, u32::MAX] {
        let mut out = Vec::new();
        write_u32(value, &mut out);
        assert_eq!(out, value.to_le_bytes().to_vec());
        assert_eq!(read_u32(&out, 0), Some(value));
    }
}

#[test]
fn reading_past_the_end_gives_none() {
    let bytes = [1u8, 2, 3, 4, 5];
    assert_eq!(read_u8(&bytes, 4), Some(5));
    assert_eq!(read_u8(&bytes, 5), None);
    assert_eq!(read_u16(&bytes, 3), Some(0x0504));
    assert_eq!(read_u16(&bytes, 4), None);
    assert_eq!(read_u16(&bytes, 9), None);
    assert_eq!(read_u32(&bytes, 1), Some(0x0504_0302));
    assert_eq!(read_u32(&bytes, 2), None);
    assert_eq!(read_u32(&bytes, usize::MAX), None);
    assert_eq!(read_u16(&bytes, usize::MAX), None);
    assert_eq!(read_u8(&[], 0), None);
}

#[test]
fn fixed40_of_a_long_text_keeps_39_bytes() {
    let text: String = ('a'..='z').chain('A'..='X').collect();
    assert_eq!(text.len(), 50);
    let field = encode_fixed40(&text);
    assert_eq!(field.len(), 40);
    assert_eq!(&field[..39], &text.as_bytes()[..39]);
    assert_eq!(field[39], 0);
    assert_eq!(decode_fixed40(&field), text[..39]);
}

#[test]
fn fixed40_is_always_40_bytes() {
    for length in [0usize, 1, 38, 39, 40, 41, 100] {
        let field = encode_fixed40(&"z".repeat(length));
        assert_eq!(field.len(), 40);
        let kept = length.min(39);
        assert!(field[..kept].iter().all(|b| *b == b'z'));
        assert!(field[kept..].iter().all(|b| *b == 0));
    }
}

#[test]
fn fixed40_of_zeros_is_the_empty_text() {
    assert_eq!(decode_fixed40(&[0u8; 40]), "");
    assert_eq!(encode_fixed40(""), vec![0u8; 40]);
}

#[test]
fn fixed40_test_round_trips() {
    let mut field = vec![84, 101, 115, 116];
    field.resize(40, 0);
    assert_eq!(decode_fixed40(&field), "Test");
    assert_eq!(encode_fixed40("Test"), field);
}

#[test]
fn fixed40_reads_no_more_than_the_field() {
    let bytes = vec![b'q'; 60];
    assert_eq!(decode_fixed40(&bytes), "q".repeat(40));
    assert_eq!(decode_fixed40(&[b'a', b'b']), "ab");
    assert_eq!(decode_fixed40(&[]), "");
}

#[test]
fn fixed40_replaces_what_is_not_utf8() {
    let mut field = vec![b'T', 0xc3, 0x28, b'x'];
    field.resize(40, 0);
    assert_eq!(decode_fixed40(&field), "T\u{fffd}(x");
    let mut field = vec![0xe4, 0xf6, 0xfc];
    field.resize(40, 0);
    assert_eq!(decode_fixed40(&field), "\u{fffd}\u{fffd}\u{fffd}");
}

#[test]
fn fixed40_keeps_valid_text_of_several_bytes_a_character() {
    let field = encode_fixed40("Zürich \u{20ac}");
    assert_eq!(field.len(), 40);
    assert_eq!(decode_fixed40(&field), "Zürich \u{20ac}");
}

#[test]
fn fixed40_cut_inside_a_character_gives_a_replacement_character() {
    let text = format!("{}\u{00e4}", "a".repeat(38));
    assert_eq!(text.len(), 40);
    let field = encode_fixed40(&text);
    assert_eq!(field[38], 0xc3);
    assert_eq!(field[39], 0);
    assert_eq!(decode_fixed40(&field), format!("{}\u{fffd}", "a".repeat(38)));
}

#[test]
fn string_40_bytes_field() {
    let text = String40Bytes::from(String::from("Pattern"));
    assert_eq!(text, String40Bytes(String::from("Pattern")));
    assert_eq!(String40Bytes::from("Pattern"), text);
    assert_eq!(text.to_string(), "Pattern");
    assert_eq!(text.len(), 7);
    assert!(text.starts_with("Pat"));
    assert_eq!(String40Bytes::default(), String40Bytes(String::new()));
    let mut out = vec![7];
    text.serialize(&mut out);
    assert_eq!(out.len(), 41);
    assert_eq!(&out[1..8], b"Pattern");
    assert!(out[8..].iter().all(|b| *b == 0));
    assert_eq!(String40Bytes::deserialize(&out, 1), Some(text));
    assert_eq!(String40Bytes::deserialize(&out, 2), None);
    assert_eq!(String40Bytes::deserialize(&out, usize::MAX), None);
    let long = String40Bytes::from("0123456789".repeat(5).as_str());
    assert_eq!(long.0, "012345678901234567890123456789012345678");
    let open = String40Bytes("0123456789".repeat(5));
    assert_eq!(open.0.len(), 50);
    let mut out = Vec::new();
    open.serialize(&mut out);
    assert_eq!(out.len(), 40);
    assert_eq!(&out[..39], "012345678901234567890123456789012345678".as_bytes());
    assert_eq!(out[39], 0);
}

#[test]
fn capped_string_of_300_bytes_is_255_on_the_wire() {
    let bytes = encode_capped_string(&"m".repeat(300));
    assert_eq!(bytes.len(), 255);
    assert!(bytes[..254].iter().all(|b| *b == b'm'));
    assert_eq!(bytes[254], 0);
    assert_eq!(capped_length(&"m".repeat(300)), 255);
    assert_eq!(decode_capped_string(&bytes), "m".repeat(254));
}

#[test]
fn capped_string_lengths() {
    assert_eq!(encode_capped_string(""), vec![0]);
    assert_eq!(capped_length(""), 1);
    assert_eq!(encode_capped_string("ab"), vec![b'a', b'b', 0]);
    assert_eq!(capped_length("ab"), 3);
    assert_eq!(encode_capped_string(&"k".repeat(254)).len(), 255);
    assert_eq!(encode_capped_string(&"k".repeat(255)).len(), 255);
    assert_eq!(capped_length(&"k".repeat(253)), 254);
}

#[test]
fn capped_string_stops_at_the_first_zero() {
    assert_eq!(decode_capped_string(&[b'a', b'b', 0, b'c', b'd', 0, b'e']), "ab");
    assert_eq!(decode_capped_string(&[0, b'c']), "");
    assert_eq!(decode_capped_string(&[b'a', b'b']), "ab");
    assert_eq!(decode_capped_string(&[]), "");
    assert_eq!(decode_capped_string(&[b'a', 0x80, 0]), "a\u{fffd}");
}

#[test]
fn header_is_two_bytes() {
    let mut out = vec![1];
    write_header(0x0a, 41, &mut out);
    assert_eq!(out, vec![1, 0x0a, 41]);
    assert_eq!(read_header(&out[1..]), Ok((0x0a, 41)));
    assert_eq!(read_header(&[9, 200, 1, 2]), Ok((9, 200)));
    assert_eq!(read_header(&[9]), Err(CodecError::FrameError));
    assert_eq!(read_header(&[]), Err(CodecError::FrameError));
}

#[test]
fn frame_is_taken_apart_by_its_announced_length() {
    assert_eq!(read_frame(&[7, 2, 10, 11, 12]), Ok((7, &[10u8, 11][..])));
    assert_eq!(read_frame(&[7, 0]), Ok((7, &[][..])));
    assert_eq!(read_frame(&[7, 3, 10, 11]), Err(CodecError::FrameError));
    assert_eq!(read_frame(&[7]), Err(CodecError::FrameError));
    let mut longest = vec![1, 255];
    longest.extend(std::iter::repeat(4u8).take(255));
    assert_eq!(read_frame(&longest).map(|(_, body)| body.len()), Ok(255));
    longest.pop();
    assert_eq!(read_frame(&longest), Err(CodecError::FrameError));
}

#[test]
fn ipv4_octets() {
    let addr = Ipv4Addr::from([192, 168, 0, 1]);
    assert_eq!(addr, Ipv4Addr::new(192, 168, 0, 1));
    assert_eq!(addr.octets(), [192, 168, 0, 1]);
    assert_eq!(Ipv4Addr::from(0xc0a8_0001u32), addr);
    assert_eq!(Ipv4Addr::from(0u32), Ipv4Addr::new(0, 0, 0, 0));
    assert_eq!(Ipv4Addr::from(u32::MAX), Ipv4Addr::broadcast());
    assert!(Ipv4Addr::broadcast().is_broadcast());
    assert!(!addr.is_broadcast());
    assert!(!Ipv4Addr::new(255, 255, 255, 254).is_broadcast());
    assert!(!Ipv4Addr::new(0, 255, 255, 255).is_broadcast());
    let mut out = Vec::new();
    addr.serialize(&mut out);
    assert_eq!(out, vec![192, 168, 0, 1]);
    assert_eq!(Ipv4Addr::deserialize(&out, 0), Some(addr));
    assert_eq!(Ipv4Addr::deserialize(&out, 1), None);
    assert_eq!(Ipv4Addr::deserialize(&out, usize::MAX), None);
}

#[test]
fn ipv6_groups() {
    let addr = Ipv6Addr::new(0x2001, 0x0db8, 0x85a3, 0, 0, 0x8a2e, 0x0370, 0x7334);
    assert_eq!(addr.segments(), [0x2001, 0x0db8, 0x85a3, 0, 0, 0x8a2e, 0x0370, 0x7334]);
    let mut out = vec![0xee];
    addr.serialize(&mut out);
    assert_eq!(
        out,
        vec![
            0xee, 0x20, 0x01, 0x0d, 0xb8, 0x85, 0xa3, 0, 0, 0, 0, 0x8a, 0x2e, 0x03, 0x70, 0x73,
            0x34
        ]
    );
    assert_eq!(Ipv6Addr::deserialize(&out, 1), Some(addr));
    assert_eq!(Ipv6Addr::deserialize(&out, 2), None);
    assert_eq!(Ipv6Addr::deserialize(&out, 0).map(|a| a.segments()[0]), Some(0xee20));
    assert_eq!(Ipv6Addr::deserialize(&out, usize::MAX), None);
}

#[test]
fn string_40_bytes_from_50_characters_keeps_39() {
    let text = "a".repeat(50);
    assert_eq!(String40Bytes::from(text.as_str()), String40Bytes("a".repeat(39)));
    assert_eq!(String40Bytes::from(text.clone()), String40Bytes("a".repeat(39)));
    let converted: String40Bytes = text.into();
    assert_eq!(converted.0.len(), 39);
    let mut field = Vec::new();
    converted.serialize(&mut field);
    assert_eq!(field.len(), 40);
    assert_eq!(String40Bytes::deserialize(&field, 0), Some(converted));
}

#[test]
fn string_40_bytes_from_a_text_that_fits_keeps_it() {
    for length in [0usize, 1, 38, 39] {
        let text = "b".repeat(length);
        assert_eq!(String40Bytes::from(text.as_str()).0, text);
        assert_eq!(String40Bytes::from(text.clone()).0, text);
    }
    assert_eq!(String40Bytes::from("c".repeat(40)).0, "c".repeat(39));
    assert_eq!(String40Bytes::from("Zürich \u{20ac}").0, "Zürich \u{20ac}");
}

#[test]
fn string_40_bytes_is_never_cut_inside_a_character() {
    let text = format!("{}\u{00e4}", "a".repeat(38));
    assert_eq!(text.len(), 40);
    assert_eq!(String40Bytes::from(text.as_str()).0, "a".repeat(38));
    let text = format!("{}\u{00e4}", "a".repeat(37));
    assert_eq!(text.len(), 39);
    assert_eq!(String40Bytes::from(text.as_str()).0, text);
    let text = format!("{}\u{20ac}x", "a".repeat(37));
    assert_eq!(String40Bytes::from(text).0, "a".repeat(37));
    let text = format!("{}\u{1f600}", "a".repeat(36));
    assert_eq!(text.len(), 40);
    assert_eq!(String40Bytes::from(text).0, "a".repeat(36));
    let text = "\u{1f600}".repeat(10);
    assert_eq!(String40Bytes::from(text).0, "\u{1f600}".repeat(9));
}

#[test]
fn fitting_str_is_the_longest_beginning_that_fits() {
    assert_eq!(fitting_str("hello", 3), "hel");
    assert_eq!(fitting_str("hello", 5), "hello");
    assert_eq!(fitting_str("hello", 9), "hello");
    assert_eq!(fitting_str("hello", 0), "");
    assert_eq!(fitting_str("", 0), "");
    assert_eq!(fitting_str("\u{00e4}\u{00e4}", 3), "\u{00e4}");
    assert_eq!(fitting_str("\u{00e4}\u{00e4}", 1), "");
    assert_eq!(fitting_str("\u{20ac}", 2), "");
    assert_eq!(fitting_str("a\u{20ac}", 3), "a");
    assert_eq!(fitting_str("a\u{20ac}", 4), "a\u{20ac}");
}

#[test]
fn string_40_bytes_text_can_be_written_through() {
    let mut text = String40Bytes::from("host");
    text.push_str(".name");
    assert_eq!(text.0, "host.name");
    text.clear();
    assert_eq!(text, String40Bytes::default());
}
