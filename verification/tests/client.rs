use itelex::client::package_enum::Package as ClientUnion;
use itelex::client::{Client, End, Heartbeat, Reject};
use itelex::error::CodecError;
use itelex::{Class, Package, PackageBody};

fn client_frame<P: PackageBody<Class = Client>>(package: &P) -> Vec<u8> {
    let mut frame = Vec::new();
    package.serialize(&mut frame);
    frame
}

#[test]
fn client_packages_round_trip() {
    assert_eq!(client_frame(&Heartbeat {}), vec![0, 0]);
    assert_eq!(client_frame(&End {}), vec![3, 0]);
    assert_eq!(
        client_frame(&Reject { message: String::from("occ") }),
        vec![4, 4, b'o', b'c', b'c', 0]
    );

    let package = Package::<Client>::deserialize(&[0, 0]).unwrap();
    assert_eq!(package.downcast_ref::<Heartbeat>(), Some(&Heartbeat {}));
    let package = Package::<Client>::deserialize(&[3, 0]).unwrap();
    assert_eq!(package.downcast_ref::<End>(), Some(&End {}));
    let package = Package::<Client>::deserialize(&[4, 4, b'o', b'c', b'c', 0]).unwrap();
    assert_eq!(
        package.downcast_ref::<Reject>(),
        Some(&Reject { message: String::from("occ") })
    );
    assert_eq!(package.package_type(), Client::Reject);

    let mut again = Vec::new();
    package.serialize(&mut again);
    assert_eq!(again, vec![4, 4, b'o', b'c', b'c', 0]);
}

#[test]
fn serialize_appends_to_what_is_there() {
    let mut stream = vec![0xde, 0xad];
    Heartbeat {}.serialize(&mut stream);
    End {}.to_package().serialize(&mut stream);
    assert_eq!(stream, vec![0xde, 0xad, 0, 0, 3, 0]);
}

#[test]
fn client_discriminants_are_0_3_and_4() {
    for byte in 0..=255u8 {
        let known = byte == 0 || byte == 3 || byte == 4;
        let result = Package::<Client>::deserialize(&[byte, 0]);
        if known {
            let package = result.expect("a known kind");
            assert_eq!(package.package_type().to_u8(), byte);
            assert_eq!(Client::from_u8(byte), Some(package.package_type()));
        } else {
            assert_eq!(result.err(), Some(CodecError::UnknownDiscriminant(byte)));
            assert_eq!(Client::from_u8(byte), None);
        }
    }
    assert_eq!(Client::Heartbeat.to_u8(), 0x00);
    assert_eq!(Client::End.to_u8(), 0x03);
    assert_eq!(Client::Reject.to_u8(), 0x04);
    assert_eq!(Client::NAME, "Client");
    assert_eq!(u8::from(Client::Reject), 4);
    assert_eq!(Client::try_from(3), Ok(Client::End));
    assert_eq!(Client::try_from(1), Err(()));
}

#[test]
fn reject_reason_ends_at_the_first_zero() {
    let package = Package::<Client>::deserialize(&[4, 6, b'n', b'a', 0, b'x', b'y', 0]).unwrap();
    assert_eq!(
        package.downcast::<Reject>().map(|reject| reject.message),
        Some(String::from("na"))
    );
}

#[test]
fn reject_reason_without_a_zero_runs_to_the_end_of_the_body() {
    let package = Package::<Client>::deserialize(&[4, 2, b'n', b'c', b'!', 0]).unwrap();
    assert_eq!(
        package.downcast::<Reject>().map(|reject| reject.message),
        Some(String::from("nc"))
    );
    let package = Package::<Client>::deserialize(&[4, 0]).unwrap();
    assert_eq!(
        package.downcast::<Reject>().map(|reject| reject.message),
        Some(String::new())
    );
}

#[test]
fn reject_reason_that_is_not_utf8_gets_replacement_characters() {
    let package = Package::<Client>::deserialize(&[4, 4, b'a', 0xff, b'b', 0]).unwrap();
    assert_eq!(
        package.downcast::<Reject>().map(|reject| reject.message),
        Some(String::from("a\u{fffd}b"))
    );
}

#[test]
fn reject_with_a_zero_inside_comes_back_shorter() {
    let frame = client_frame(&Reject { message: String::from("ab\0cd") });
    assert_eq!(frame, vec![4, 6, b'a', b'b', 0, b'c', b'd', 0]);
    let back = Package::<Client>::deserialize(&frame).unwrap();
    assert_eq!(
        back.downcast_ref::<Reject>(),
        Some(&Reject { message: String::from("ab") })
    );
}

#[test]
fn reject_of_300_bytes_is_cut_to_254_and_a_zero() {
    let frame = client_frame(&Reject { message: "r".repeat(300) });
    assert_eq!(frame.len(), 257);
    assert_eq!(frame[1], 255);
    assert_eq!(frame[256], 0);
    let frame = client_frame(&Reject { message: "r".repeat(254) });
    assert_eq!(frame.len(), 257);
    let frame = client_frame(&Reject { message: "r".repeat(253) });
    assert_eq!(frame.len(), 256);
    assert_eq!(frame[1], 254);
}

#[test]
fn reject_from_string_and_to_string() {
    let reject = Reject::from(String::from("occupied"));
    assert_eq!(reject, Reject { message: String::from("occupied") });
    assert_eq!(reject.to_string(), "occupied");
}

#[test]
fn client_union_tells_type_and_length() {
    assert_eq!(ClientUnion::Heartbeat(Heartbeat {}).package_type(), 0);
    assert_eq!(ClientUnion::End(End {}).package_type(), 3);
    let reject = ClientUnion::Reject(Reject { message: String::from("no") });
    assert_eq!(reject.package_type(), 4);
    assert_eq!(reject.package_length(), 3);
    assert_eq!(ClientUnion::Heartbeat(Heartbeat {}).package_length(), 0);
    let mut frame = Vec::new();
    reject.serialize_le(&mut frame);
    assert_eq!(frame, vec![4, 3, b'n', b'o', 0]);
    assert_eq!(ClientUnion::deserialize_le(&frame), Ok(reject));
    assert_eq!(ClientUnion::deserialize_header(&frame), Ok((4, 3)));
    let mut header = Vec::new();
    ClientUnion::End(End {}).serialize_header(&mut header);
    assert_eq!(header, vec![3, 0]);
    assert_eq!(
        Package::<Client>::from_union(ClientUnion::End(End {})).into_union(),
        ClientUnion::End(End {})
    );
}

#[test]
fn client_debug_text_names_the_dialect() {
    let package: Package<Client> = Reject { message: String::from("nc") }.into();
    assert_eq!(package.debug_string(), "Package<Client>(Reject { message: \"nc\" })");
    assert_eq!(Heartbeat {}.to_package().debug_string(), "Package<Client>(Heartbeat)");
}
