use itelex::addr::Ipv4Addr;
use itelex::error::CodecError;
use itelex::server::package_enum::Package as Union;
use itelex::server::{
    Acknowledge, AddressConfirm, ClientType, ClientUpdate, EndOfList, Error, FullQuery, Login,
    PeerNotFound, PeerQuery, PeerReply, PeerSearch, Server, String40Bytes,
};
use itelex::{Class, Package, PackageBody};

fn test_all<P>(package: P, serialized: Vec<u8>)
where
    P: PackageBody<Class = Server> + PartialEq + std::fmt::Debug,
{
    assert_eq!(
        Package::<Server>::deserialize(&serialized)
            .expect("Package::<Server>::deserialize failed")
            .downcast_ref::<P>(),
        Some(&package),
        "deserialize created unexpected result"
    );

    let mut res = Vec::with_capacity(serialized.len());

    package.to_package().serialize(&mut res);

    assert_eq!(res, serialized, "serialize created unexpected result");
}

fn assert_send<T: Send>(_: T) {}

#[test]
fn test_debug_package() {
    let package: Package<Server> = ClientUpdate {
        number: 0xff_00_f0_0f,
        pin: 0xf0_0f,
        port: 0x0f_f0,
    }
    .into();

    assert_eq!(
        package.debug_string(),
        "Package<Server>(ClientUpdate { number: 4278251535, pin: 61455, port: 4080 })"
    );
}

#[test]
fn test_downcast() {
    let mut package: Package<Server> = ClientUpdate {
        number: 0xff_00_f0_0f,
        pin: 0xf0_0f,
        port: 0x0f_f0,
    }
    .into();

    assert!(package.downcast_ref::<ClientUpdate>().is_some());
    assert!(package.downcast_mut::<ClientUpdate>().is_some());
    assert!(package.downcast::<ClientUpdate>().is_some());
}

#[test]
fn packages_are_send() {
    let package: Package<Server> = ClientUpdate {
        number: 0xff_00_f0_0f,
        pin: 0xf0_0f,
        port: 0x0f_f0,
    }
    .into();

    assert_send(package);
}

#[test]
fn type_1() {
    let serialized: Vec<u8> = vec![
        // header:
        1, 8, // number:
        0x0f, 0xf0, 0x00, 0xff, // pin:
        0x0f, 0xf0, // port:
        0xf0, 0x0f,
    ];

    let package = ClientUpdate {
        number: 0xff_00_f0_0f,
        pin: 0xf0_0f,
        port: 0x0f_f0,
    };

    test_all(package, serialized);
}

#[test]
fn type_2() {
    let serialized: Vec<u8> = vec![
        // header:
        2, 4, // ipaddress
        0xff, 0x00, 0xf0, 0x0f,
    ];

    let package = AddressConfirm {
        ipaddress: Ipv4Addr::from([0xff, 0x00, 0xf0, 0x0f]),
    };

    test_all(package, serialized);
}

#[test]
fn type_3() {
    let serialized: Vec<u8> = vec![
        // header:
        3, 5, // number:
        0x44, 0x33, 0x22, 0x11, // version:
        0xf7,
    ];

    let package = PeerQuery {
        number: 0x11_22_33_44,
        version: 0xf7,
    };

    test_all(package, serialized);
}

#[test]
fn type_4() {
    let serialized: Vec<u8> = vec![4, 0];

    let package = PeerNotFound {};

    test_all(package, serialized);
}

#[test]
fn type_5() {
    let serialized: Vec<u8> = vec![
        // header:
        5, 100, // number:
        4, 3, 2, 1, // name:
        84, 101, 115, 116, 0, 0, 0, 0, 0, 0, 0, 0, 0, 0, 0, 0, 0, 0, 0, 0, 0, 0, 0, 0, 0, 0, 0, 0,
        0, 0, 0, 0, 0, 0, 0, 0, 0, 0, 0, 0, // flags:
        2, 0, // client_type:
        5, // hostname:
        104, 111, 115, 116, 46, 110, 97, 109, 101, 0, 0, 0, 0, 0, 0, 0, 0, 0, 0, 0, 0, 0, 0, 0, 0,
        0, 0, 0, 0, 0, 0, 0, 0, 0, 0, 0, 0, 0, 0, 0, // ipaddress:
        8, 9, 0x0a, 0x0b, // port:
        0x0d, 0x0c, // extension:
        0x0e, // pin:
        0x10, 0x0f, //timestamp:
        0x14, 0x13, 0x12, 0x11,
    ];

    let package = PeerReply {
        number: 0x01_02_03_04,
        name: String::from("Test").into(),
        flags: PeerReply::flags(true),
        client_type: ClientType::BaudotDynIp,
        hostname: String::from("host.name").into(),
        ipaddress: Ipv4Addr::from(0x08_09_0a_0b),
        port: 0x0c_0d,
        extension: 0x0e,
        pin: 0x0f_10,
        timestamp: 0x11_12_13_14,
    };

    test_all(package, serialized);
}

#[test]
fn type_6() {
    let serialized: Vec<u8> = vec![6, 5, 0x0f, 0x11, 0x22, 0x33, 0x44];

    let package = FullQuery {
        server_pin: 0x44_33_22_11,
        version: 0x0f,
    };

    test_all(package, serialized);
}

#[test]
fn type_7() {
    let serialized: Vec<u8> = vec![7, 5, 0x0f, 0x11, 0x22, 0x33, 0x44];

    let package = Login {
        server_pin: 0x44_33_22_11,
        version: 0x0f,
    };

    test_all(package, serialized);
}

#[test]
fn type_8() {
    let serialized: Vec<u8> = vec![8, 0];

    let package = Acknowledge {};

    test_all(package, serialized);
}

#[test]
fn type_9() {
    let serialized: Vec<u8> = vec![9, 0];

    let package = EndOfList {};

    test_all(package, serialized);
}

#[test]
fn type_10() {
    let serialized: Vec<u8> = vec![
        // header:
        10, 41,  // version:
        240, // pattern:
        80, 97, 116, 116, 101, 114, 110, 0, 0, 0, 0, 0, 0, 0, 0, 0, 0, 0, 0, 0, 0, 0, 0, 0, 0, 0,
        0, 0, 0, 0, 0, 0, 0, 0, 0, 0, 0, 0, 0, 0,
    ];

    let package = PeerSearch {
        pattern: String::from("Pattern").into(),
        version: 0xf0,
    };

    test_all(package, serialized);
}

#[test]
fn type_255() {
    let serialized: Vec<u8> = vec![
        // header:
        0xff, 22, // message:
        65, 110, 32, 69, 114, 114, 111, 114, 32, 104, 97, 115, 32, 111, 99, 99, 117, 114, 101, 100,
        33, 0,
    ];

    let package = Error {
        message: String::from("An Error has occured!"),
    };

    test_all(package, serialized);
}

fn sample_reply() -> PeerReply {
    PeerReply {
        number: 4711,
        name: String40Bytes::from("Fernschreiber"),
        flags: PeerReply::flags(false),
        client_type: ClientType::AsciiIpaddress,
        hostname: String40Bytes::default(),
        ipaddress: Ipv4Addr::new(192, 168, 1, 20),
        port: 134,
        extension: 0,
        pin: 0,
        timestamp: 0,
    }
}

#[test]
fn server_round_trip_boundary_values() {
    test_all(
        ClientUpdate { number: u32::MAX, pin: u16::MAX, port: u16::MAX },
        vec![1, 8, 255, 255, 255, 255, 255, 255, 255, 255],
    );
    test_all(
        ClientUpdate { number: 0, pin: 0, port: 0 },
        vec![1, 8, 0, 0, 0, 0, 0, 0, 0, 0],
    );
    test_all(
        AddressConfirm { ipaddress: Ipv4Addr::broadcast() },
        vec![2, 4, 255, 255, 255, 255],
    );
    test_all(PeerQuery { number: u32::MAX, version: 255 }, vec![3, 5, 255, 255, 255, 255, 255]);
    test_all(
        FullQuery { version: 1, server_pin: u32::MAX },
        vec![6, 5, 1, 255, 255, 255, 255],
    );
    test_all(Login { version: 0, server_pin: 1 }, vec![7, 5, 0, 1, 0, 0, 0]);
    test_all(Error { message: String::new() }, vec![255, 1, 0]);
}

#[test]
fn peer_reply_round_trip_with_every_client_type() {
    let kinds = [
        ClientType::Deleted,
        ClientType::BaudotHostname,
        ClientType::BaudotIpaddress,
        ClientType::AsciiHostname,
        ClientType::AsciiIpaddress,
        ClientType::BaudotDynIp,
        ClientType::Email,
    ];
    for (code, kind) in kinds.iter().enumerate() {
        let mut reply = sample_reply();
        reply.client_type = *kind;
        reply.timestamp = u32::MAX;
        let mut frame = Vec::new();
        reply.serialize(&mut frame);
        assert_eq!(frame.len(), 102);
        assert_eq!(frame[0], 5);
        assert_eq!(frame[1], 100);
        assert_eq!(frame[2 + 46], code as u8);
        let back = Package::<Server>::deserialize(&frame).expect("frame decodes");
        assert_eq!(back.downcast_ref::<PeerReply>(), Some(&reply));
    }
}

#[test]
fn peer_reply_with_unknown_client_type_is_a_body_error() {
    let mut frame = Vec::new();
    sample_reply().serialize(&mut frame);
    for code in 7..=255u8 {
        frame[2 + 46] = code;
        assert_eq!(
            Package::<Server>::deserialize(&frame).err(),
            Some(CodecError::BodyDecodeError(5))
        );
        assert_eq!(PeerReply::deserialize(&frame), Err(CodecError::BodyDecodeError(5)));
    }
}

#[test]
fn client_type_codes() {
    assert_eq!(ClientType::try_from(0), Ok(ClientType::Deleted));
    assert_eq!(ClientType::try_from(1), Ok(ClientType::BaudotHostname));
    assert_eq!(ClientType::try_from(2), Ok(ClientType::BaudotIpaddress));
    assert_eq!(ClientType::try_from(3), Ok(ClientType::AsciiHostname));
    assert_eq!(ClientType::try_from(4), Ok(ClientType::AsciiIpaddress));
    assert_eq!(ClientType::try_from(5), Ok(ClientType::BaudotDynIp));
    assert_eq!(ClientType::try_from(6), Ok(ClientType::Email));
    for code in 7..=255u8 {
        assert_eq!(ClientType::try_from(code), Err(()));
    }
    for code in 0..=6u8 {
        let kind = ClientType::try_from(code).unwrap();
        assert_eq!(kind.to_u8(), code);
        assert_eq!(kind.to_string(), code.to_string());
        let mut out = vec![9];
        kind.serialize_le(&mut out);
        assert_eq!(out, vec![9, code]);
        assert_eq!(ClientType::deserialize_le(&out, 1), Some(kind));
    }
    assert_eq!(u8::from(ClientType::Email), 6);
    assert_eq!(ClientType::from_u8(5), Some(ClientType::BaudotDynIp));
    assert_eq!(ClientType::from_u8(7), None);
    assert_eq!(ClientType::deserialize_le(&[1, 7], 1), None);
    assert_eq!(ClientType::deserialize_le(&[1], 1), None);
}

#[test]
fn extension_as_str_follows_the_table() {
    let mut reply = sample_reply();
    let mut text = |code: u8| {
        reply.extension = code;
        reply.extension_as_str()
    };
    assert_eq!(text(0), Ok(String::from("-")));
    assert_eq!(text(5), Ok(String::from("05")));
    assert_eq!(text(1), Ok(String::from("01")));
    assert_eq!(text(10), Ok(String::from("10")));
    assert_eq!(text(99), Ok(String::from("99")));
    assert_eq!(text(100), Ok(String::from("00")));
    assert_eq!(text(101), Ok(String::from("1")));
    assert_eq!(text(105), Ok(String::from("5")));
    assert_eq!(text(109), Ok(String::from("9")));
    assert_eq!(text(110), Ok(String::from("0")));
    assert_eq!(text(111), Err(111));
    assert_eq!(text(255), Err(255));
}

#[test]
fn extension_as_str_for_every_code() {
    let mut reply = sample_reply();
    for code in 0..=255u8 {
        reply.extension = code;
        let expected = match code {
            0 => Ok(String::from("-")),
            100 => Ok(String::from("00")),
            110 => Ok(String::from("0")),
            1..=99 => Ok(format!("{:02}", code)),
            101..=109 => Ok(format!("{}", code - 100)),
            other => Err(other),
        };
        assert_eq!(reply.extension_as_str(), expected);
    }
}

#[test]
fn disabled_is_bit_one_of_the_flags() {
    let mut reply = sample_reply();
    assert_eq!(PeerReply::flags(true), 0x02);
    assert_eq!(PeerReply::flags(false), 0x00);
    reply.flags = PeerReply::flags(true);
    assert!(reply.disabled());
    reply.flags = PeerReply::flags(false);
    assert!(!reply.disabled());
    reply.flags = 0xfffd;
    assert!(!reply.disabled());
    reply.flags = 0xffff;
    assert!(reply.disabled());
    reply.flags = 0x0001;
    assert!(!reply.disabled());
}

#[test]
fn empty_hostname_stands_for_none() {
    let mut reply = sample_reply();
    assert_eq!(reply.hostname(), None);
    assert!(reply.hostname_mut().is_none());
    reply.hostname = String40Bytes::from("host.name");
    assert_eq!(reply.hostname(), Some("host.name"));
    reply.hostname_mut().unwrap().push_str(".example");
    assert_eq!(reply.hostname(), Some("host.name.example"));
    assert_eq!(reply.name, String40Bytes::from("Fernschreiber"));
}

#[test]
fn broadcast_address_stands_for_none() {
    let mut reply = sample_reply();
    assert_eq!(reply.ipaddress(), Some(&Ipv4Addr::new(192, 168, 1, 20)));
    *reply.ipaddress_mut().unwrap() = Ipv4Addr::new(10, 0, 0, 1);
    assert_eq!(reply.ipaddress(), Some(&Ipv4Addr::new(10, 0, 0, 1)));
    reply.ipaddress = Ipv4Addr::new(0, 0, 0, 0);
    assert_eq!(reply.ipaddress(), Some(&Ipv4Addr::new(0, 0, 0, 0)));
    reply.ipaddress = Ipv4Addr::broadcast();
    assert_eq!(reply.ipaddress(), None);
    assert!(reply.ipaddress_mut().is_none());
    assert_eq!(reply.ipaddress, Ipv4Addr::new(255, 255, 255, 255));
}

#[test]
fn server_discriminants_are_one_to_ten_and_255() {
    for byte in 0..=255u8 {
        let frame = [byte, 0];
        let known = (1..=10).contains(&byte) || byte == 255;
        match Package::<Server>::deserialize(&frame) {
            Ok(package) => {
                assert!(known, "byte {} was taken for a package", byte);
                let mut again = Vec::new();
                package.serialize(&mut again);
                assert_eq!(again[0], byte);
            }
            Err(CodecError::UnknownDiscriminant(found)) => {
                assert!(!known);
                assert_eq!(found, byte);
            }
            Err(CodecError::BodyDecodeError(found)) => {
                assert!(known);
                assert_eq!(found, byte);
            }
            Err(CodecError::FrameError) => panic!("the frame is whole"),
        }
    }
}

#[test]
fn server_kinds_convert_to_and_from_bytes() {
    assert_eq!(u8::from(Server::ClientUpdate), 1);
    assert_eq!(u8::from(Server::PeerSearch), 10);
    assert_eq!(u8::from(Server::Error), 255);
    assert_eq!(Server::try_from(5), Ok(Server::PeerReply));
    assert_eq!(Server::try_from(255), Ok(Server::Error));
    assert_eq!(Server::try_from(0), Err(()));
    assert_eq!(Server::try_from(11), Err(()));
    for byte in 0..=255u8 {
        match Server::try_from(byte) {
            Ok(kind) => {
                assert_eq!(u8::from(kind), byte);
                assert_eq!(Server::from_u8(byte), Some(kind));
                assert_eq!(kind.to_u8(), byte);
            }
            Err(()) => assert_eq!(Server::from_u8(byte), None),
        }
    }
    assert_eq!(Server::NAME, "Server");
}

#[test]
fn server_short_bodies_are_body_errors() {
    let cases: [(u8, usize); 7] = [(1, 8), (2, 4), (3, 5), (5, 100), (6, 5), (7, 5), (10, 41)];
    for (discriminant, length) in cases {
        for shorter in 0..length {
            let mut frame = vec![discriminant, shorter as u8];
            frame.extend(std::iter::repeat(1u8).take(shorter));
            assert_eq!(
                Package::<Server>::deserialize(&frame).err(),
                Some(CodecError::BodyDecodeError(discriminant)),
                "kind {} with {} body bytes",
                discriminant,
                shorter
            );
        }
        let mut frame = vec![discriminant, length as u8];
        frame.extend(std::iter::repeat(1u8).take(length));
        assert!(Package::<Server>::deserialize(&frame).is_ok());
    }
}

#[test]
fn server_incomplete_frames_are_frame_errors() {
    assert_eq!(Package::<Server>::deserialize(&[]).err(), Some(CodecError::FrameError));
    assert_eq!(Package::<Server>::deserialize(&[1]).err(), Some(CodecError::FrameError));
    assert_eq!(
        Package::<Server>::deserialize(&[1, 8, 0, 0, 0, 0, 0, 0, 0]).err(),
        Some(CodecError::FrameError)
    );
    assert_eq!(Package::<Server>::deserialize(&[11, 1]).err(), Some(CodecError::FrameError));
    assert_eq!(ClientUpdate::deserialize(&[1]), Err(CodecError::FrameError));
}

#[test]
fn bytes_behind_the_frame_are_left_alone() {
    let bytes = [3, 5, 0x44, 0x33, 0x22, 0x11, 0xf7, 9, 9, 9];
    let package = Package::<Server>::deserialize(&bytes).unwrap();
    assert_eq!(
        package.downcast_ref::<PeerQuery>(),
        Some(&PeerQuery { number: 0x11_22_33_44, version: 0xf7 })
    );
}

#[test]
fn a_longer_body_than_the_kind_needs_is_read_from_its_front() {
    let bytes = [3, 7, 0x44, 0x33, 0x22, 0x11, 0xf7, 9, 9];
    let package = Package::<Server>::deserialize(&bytes).unwrap();
    assert_eq!(
        package.downcast_ref::<PeerQuery>(),
        Some(&PeerQuery { number: 0x11_22_33_44, version: 0xf7 })
    );
    let bytes = [4, 2, 7, 7];
    assert!(Package::<Server>::deserialize(&bytes).unwrap().is::<PeerNotFound>());
}

#[test]
fn probing_for_one_kind() {
    let bytes = [3, 5, 0x44, 0x33, 0x22, 0x11, 0xf7];
    assert_eq!(
        PeerQuery::deserialize(&bytes),
        Ok(Some(PeerQuery { number: 0x11_22_33_44, version: 0xf7 }))
    );
    assert_eq!(ClientUpdate::deserialize(&bytes), Ok(None));
    assert_eq!(Error::deserialize(&bytes), Ok(None));
    assert_eq!(PeerQuery::deserialize(&[3, 4, 1, 2, 3, 4]), Err(CodecError::BodyDecodeError(3)));
    assert_eq!(PeerQuery::deserialize(&[0, 0]), Err(CodecError::UnknownDiscriminant(0)));
    assert_eq!(PeerQuery::deserialize(&[3, 5, 1]), Err(CodecError::FrameError));
}

#[test]
fn body_only_encoding() {
    let query = PeerQuery { number: 0x11_22_33_44, version: 0xf7 };
    let mut body = vec![0xaa];
    query.serialize_body(&mut body);
    assert_eq!(body, vec![0xaa, 0x44, 0x33, 0x22, 0x11, 0xf7]);
    assert_eq!(PeerQuery::deserialize_body(&body[1..]), Ok(query.clone()));
    assert_eq!(PeerQuery::deserialize_body(&body[2..]), Err(CodecError::BodyDecodeError(3)));
    assert_eq!(query.package_type(), Server::PeerQuery);
    assert_eq!(PeerQuery::VARIANT, Server::PeerQuery);
}

#[test]
fn error_message_is_cut_to_fit_the_length_byte() {
    let long = Error { message: "x".repeat(300) };
    let mut frame = Vec::new();
    long.serialize(&mut frame);
    assert_eq!(frame.len(), 2 + 255);
    assert_eq!(frame[0], 255);
    assert_eq!(frame[1], 255);
    assert!(frame[2..256].iter().all(|b| *b == b'x'));
    assert_eq!(frame[256], 0);
    let back = Package::<Server>::deserialize(&frame).unwrap();
    assert_eq!(back.downcast_ref::<Error>(), Some(&Error { message: "x".repeat(254) }));
}

#[test]
fn error_from_string_and_to_string() {
    let error = Error::from(String::from("no such number"));
    assert_eq!(error.message, "no such number");
    assert_eq!(error.to_string(), "no such number");
}

#[test]
fn server_union_tells_type_and_length() {
    let update = Union::ClientUpdate(ClientUpdate { number: 1, pin: 2, port: 3 });
    assert_eq!(update.package_type(), 1);
    assert_eq!(update.package_length(), 8);
    assert_eq!(Union::AddressConfirm(AddressConfirm { ipaddress: Ipv4Addr::new(1, 2, 3, 4) }).package_length(), 4);
    assert_eq!(Union::PeerQuery(PeerQuery { number: 1, version: 1 }).package_length(), 5);
    assert_eq!(Union::PeerNotFound(PeerNotFound {}).package_length(), 0);
    assert_eq!(Union::PeerReply(sample_reply()).package_length(), 100);
    assert_eq!(Union::PeerReply(sample_reply()).package_type(), 5);
    assert_eq!(Union::FullQuery(FullQuery { version: 1, server_pin: 1 }).package_length(), 5);
    assert_eq!(Union::Login(Login { version: 1, server_pin: 1 }).package_length(), 5);
    assert_eq!(Union::Acknowledge(Acknowledge {}).package_length(), 0);
    assert_eq!(Union::EndOfList(EndOfList {}).package_length(), 0);
    assert_eq!(
        Union::PeerSearch(PeerSearch { version: 1, pattern: String40Bytes::from("a") }).package_length(),
        41
    );
    let error = Union::Error(Error { message: String::from("abc") });
    assert_eq!(error.package_type(), 255);
    assert_eq!(error.package_length(), 4);
    assert_eq!(Union::Error(Error { message: "y".repeat(1000) }).package_length(), 255);

    let mut header = Vec::new();
    update.serialize_header(&mut header);
    assert_eq!(header, vec![1, 8]);
    assert_eq!(Union::deserialize_header(&[7, 5, 1]), Ok((7, 5)));
    assert_eq!(Union::deserialize_header(&[7]), Err(CodecError::FrameError));

    let mut frame = Vec::new();
    update.serialize_le(&mut frame);
    assert_eq!(frame, vec![1, 8, 1, 0, 0, 0, 2, 0, 3, 0]);
    assert_eq!(Union::deserialize_le(&frame), Ok(update));
    assert_eq!(Union::deserialize_le(&[0, 0]), Err(CodecError::UnknownDiscriminant(0)));
}
