use itelex::addr::{Ipv4Addr, Ipv6Addr};
use itelex::centralex::package_enum::Package as CentralexUnion;
use itelex::centralex::{
    Centralex, End, Heartbeat, Reject, RemAck, RemCall, RemConfirm, RemConnect,
};
use itelex::error::CodecError;
use itelex::{Class, Package, PackageBody};

fn there_and_back<P>(package: P, serialized: Vec<u8>)
where
    P: PackageBody<Class = Centralex> + PartialEq + std::fmt::Debug,
{
    let mut frame = Vec::new();
    package.serialize(&mut frame);
    assert_eq!(frame, serialized);
    assert_eq!(frame.len(), 2 + frame[1] as usize);
    let back = Package::<Centralex>::deserialize(&serialized).expect("frame decodes");
    assert_eq!(back.package_type(), P::VARIANT);
    assert_eq!(back.downcast_ref::<P>(), Some(&package));
    let mut again = Vec::new();
    back.serialize(&mut again);
    assert_eq!(again, serialized);
}

#[test]
fn construct_package() {
    let mut package = RemAck {}.to_package();

    package.downcast_mut::<RemAck>().unwrap();
}

#[test]
fn centralex_packages_round_trip() {
    there_and_back(Heartbeat {}, vec![0x00, 0]);
    there_and_back(End {}, vec![0x03, 0]);
    there_and_back(
        Reject { message: String::from("na") },
        vec![0x04, 3, b'n', b'a', 0],
    );
    there_and_back(
        RemConnect { number: 0x01_02_03_04, pin: 0x05_06 },
        vec![0x81, 6, 4, 3, 2, 1, 6, 5],
    );
    there_and_back(
        RemConnect { number: u32::MAX, pin: u16::MAX },
        vec![0x81, 6, 255, 255, 255, 255, 255, 255],
    );
    there_and_back(RemConfirm {}, vec![0x82, 0]);
    there_and_back(RemAck {}, vec![0x84, 0]);
}

#[test]
fn rem_call_carries_both_addresses() {
    there_and_back(
        RemCall {
            remote_ip_v4: Ipv4Addr::new(192, 0, 2, 1),
            remote_ip_v6: Ipv6Addr::new(0x2001, 0x0db8, 0, 0, 0, 0, 0, 1),
        },
        vec![
            0x83, 20, 192, 0, 2, 1, 0x20, 0x01, 0x0d, 0xb8, 0, 0, 0, 0, 0, 0, 0, 0, 0, 0, 0, 1,
        ],
    );
    there_and_back(
        RemCall {
            remote_ip_v4: Ipv4Addr::new(0, 0, 0, 0),
            remote_ip_v6: Ipv6Addr::new(0, 0, 0, 0, 0, 0, 0, 0),
        },
        vec![0x83, 20, 0, 0, 0, 0, 0, 0, 0, 0, 0, 0, 0, 0, 0, 0, 0, 0, 0, 0, 0, 0],
    );
    there_and_back(
        RemCall {
            remote_ip_v4: Ipv4Addr::broadcast(),
            remote_ip_v6: Ipv6Addr::new(
                0xffff, 0xffff, 0xffff, 0xffff, 0xffff, 0xffff, 0xffff, 0xffff,
            ),
        },
        vec![
            0x83, 20, 255, 255, 255, 255, 255, 255, 255, 255, 255, 255, 255, 255, 255, 255, 255,
            255, 255, 255, 255, 255,
        ],
    );
}

#[test]
fn rem_call_that_announces_no_body_is_not_read() {
    assert_eq!(
        Package::<Centralex>::deserialize(&[0x83, 0]).err(),
        Some(CodecError::BodyDecodeError(0x83))
    );
    let mut frame = vec![0x83, 19];
    frame.extend(std::iter::repeat(0u8).take(19));
    assert_eq!(
        Package::<Centralex>::deserialize(&frame).err(),
        Some(CodecError::BodyDecodeError(0x83))
    );
    assert_eq!(
        Package::<Centralex>::deserialize(&[0x81, 5, 1, 2, 3, 4, 5]).err(),
        Some(CodecError::BodyDecodeError(0x81))
    );
}

#[test]
fn centralex_discriminants() {
    let known = [0x00u8, 0x03, 0x04, 0x81, 0x82, 0x83, 0x84];
    for byte in 0..=255u8 {
        let mut frame = vec![byte, 20];
        frame.extend(std::iter::repeat(0u8).take(20));
        let result = Package::<Centralex>::deserialize(&frame);
        if known.contains(&byte) {
            let package = result.expect("a known kind");
            assert_eq!(package.package_type().to_u8(), byte);
            assert_eq!(Centralex::from_u8(byte), Some(package.package_type()));
        } else {
            assert_eq!(result.err(), Some(CodecError::UnknownDiscriminant(byte)));
            assert_eq!(Centralex::from_u8(byte), None);
        }
    }
    assert_eq!(Centralex::NAME, "Centralex");
    assert_eq!(u8::from(Centralex::RemCall), 0x83);
    assert_eq!(Centralex::try_from(0x84), Ok(Centralex::RemAck));
    assert_eq!(Centralex::try_from(0x80), Err(()));
}

#[test]
fn centralex_union_tells_type_and_length() {
    let call = CentralexUnion::RemCall(RemCall {
        remote_ip_v4: Ipv4Addr::new(1, 2, 3, 4),
        remote_ip_v6: Ipv6Addr::new(1, 2, 3, 4, 5, 6, 7, 8),
    });
    assert_eq!(call.package_type(), 0x83);
    assert_eq!(call.package_length(), 20);
    let connect = CentralexUnion::RemConnect(RemConnect { number: 7, pin: 9 });
    assert_eq!(connect.package_type(), 0x81);
    assert_eq!(connect.package_length(), 6);
    assert_eq!(CentralexUnion::RemConfirm(RemConfirm {}).package_type(), 0x82);
    assert_eq!(CentralexUnion::RemAck(RemAck {}).package_type(), 0x84);
    assert_eq!(CentralexUnion::End(End {}).package_type(), 3);
    assert_eq!(CentralexUnion::Heartbeat(Heartbeat {}).package_type(), 0);
    let reject = CentralexUnion::Reject(Reject { message: String::from("abc") });
    assert_eq!(reject.package_type(), 4);
    assert_eq!(reject.package_length(), 4);
    let mut frame = Vec::new();
    connect.serialize_le(&mut frame);
    assert_eq!(frame, vec![0x81, 6, 7, 0, 0, 0, 9, 0]);
    assert_eq!(CentralexUnion::deserialize_le(&frame), Ok(connect));
    let mut header = Vec::new();
    call.serialize_header(&mut header);
    assert_eq!(header, vec![0x83, 20]);
    assert_eq!(CentralexUnion::deserialize_header(&[0x83]), Err(CodecError::FrameError));
}

#[test]
fn centralex_debug_text_names_the_dialect() {
    let package = RemConnect { number: 1, pin: 2 }.to_package();
    assert_eq!(package.debug_string(), "Package<Centralex>(RemConnect { number: 1, pin: 2 })");
}

#[test]
fn centralex_reject_from_string() {
    let reject = Reject::from(String::from("busy"));
    assert_eq!(reject.to_string(), "busy");
}
