use itelex::addr::Ipv4Addr;
use itelex::centralex::Centralex;
use itelex::client::Client;
use itelex::server::{
    Acknowledge, AddressConfirm, ClientType, ClientUpdate, EndOfList, Error, FullQuery, Login,
    PeerNotFound, PeerQuery, PeerReply, PeerSearch, Server, String40Bytes,
};
use itelex::{Package, PackageBody};

fn server_samples() -> Vec<Package<Server>> {
    vec![
        ClientUpdate { number: 1, pin: 2, port: 3 }.into(),
        AddressConfirm { ipaddress: Ipv4Addr::new(1, 2, 3, 4) }.into(),
        PeerQuery { number: 5, version: 1 }.into(),
        PeerNotFound {}.into(),
        PeerReply {
            number: 6,
            name: String40Bytes::from("n"),
            flags: 0,
            client_type: ClientType::Email,
            hostname: String40Bytes::from("h"),
            ipaddress: Ipv4Addr::broadcast(),
            port: 1,
            extension: 2,
            pin: 3,
            timestamp: 4,
        }
        .into(),
        FullQuery { version: 1, server_pin: 7 }.into(),
        Login { version: 1, server_pin: 8 }.into(),
        Acknowledge {}.into(),
        EndOfList {}.into(),
        PeerSearch { version: 1, pattern: String40Bytes::from("p") }.into(),
        Error { message: String::from("e") }.into(),
    ]
}

fn answers<P: PackageBody<Class = Server>>(package: &mut Package<Server>) -> [bool; 5] {
    [
        package.is::<P>(),
        package.raw_is::<P>(),
        package.downcast_ref::<P>().is_some(),
        package.raw_downcast_ref::<P>().is_some(),
        package.downcast_mut::<P>().is_some() && package.raw_downcast_mut::<P>().is_some(),
    ]
}

fn server_answers(package: &mut Package<Server>) -> Vec<[bool; 5]> {
    vec![
        answers::<ClientUpdate>(package),
        answers::<AddressConfirm>(package),
        answers::<PeerQuery>(package),
        answers::<PeerNotFound>(package),
        answers::<PeerReply>(package),
        answers::<FullQuery>(package),
        answers::<Login>(package),
        answers::<Acknowledge>(package),
        answers::<EndOfList>(package),
        answers::<PeerSearch>(package),
        answers::<Error>(package),
    ]
}

#[test]
fn downcast_to_another_kind_gives_nothing() {
    for (made_from, mut package) in server_samples().into_iter().enumerate() {
        for (asked_for, answer) in server_answers(&mut package).into_iter().enumerate() {
            assert_eq!(answer, [made_from == asked_for; 5], "{} as {}", made_from, asked_for);
        }
    }
}

#[test]
fn consuming_downcast_to_another_kind_gives_nothing() {
    for (made_from, package) in server_samples().into_iter().enumerate() {
        assert_eq!(package.downcast::<Login>().is_some(), made_from == 6);
    }
    for (made_from, package) in server_samples().into_iter().enumerate() {
        assert_eq!(package.downcast::<FullQuery>().is_some(), made_from == 5);
    }
    for (made_from, package) in server_samples().into_iter().enumerate() {
        assert_eq!(package.downcast::<PeerNotFound>().is_some(), made_from == 3);
    }
}

#[test]
fn package_type_is_the_kind_of_the_body() {
    let kinds = [
        Server::ClientUpdate,
        Server::AddressConfirm,
        Server::PeerQuery,
        Server::PeerNotFound,
        Server::PeerReply,
        Server::FullQuery,
        Server::Login,
        Server::Acknowledge,
        Server::EndOfList,
        Server::PeerSearch,
        Server::Error,
    ];
    for (package, kind) in server_samples().iter().zip(kinds) {
        assert_eq!(package.package_type(), kind);
    }
}

#[test]
fn downcast_gives_the_body_back() {
    let package = Package::<Server>::new(PeerQuery { number: 77, version: 3 });
    assert_eq!(
        package.downcast::<PeerQuery>(),
        Some(Box::new(PeerQuery { number: 77, version: 3 }))
    );
    let package = Package::<Server>::from_box(Box::new(Error { message: String::from("x") }));
    assert_eq!(package.downcast_ref::<Error>().map(|e| e.message.as_str()), Some("x"));
    assert!(package.downcast::<PeerQuery>().is_none());
}

#[test]
fn writing_through_downcast_mut_changes_the_package() {
    let mut package = ClientUpdate { number: 1, pin: 2, port: 3 }.to_package();
    package.downcast_mut::<ClientUpdate>().unwrap().port = 4000;
    assert!(package.downcast_mut::<PeerQuery>().is_none());
    assert_eq!(package.package_type(), Server::ClientUpdate);
    let mut frame = Vec::new();
    package.serialize(&mut frame);
    assert_eq!(frame, vec![1, 8, 1, 0, 0, 0, 2, 0, 0xa0, 0x0f]);
    package.raw_downcast_mut::<ClientUpdate>().unwrap().number = 0x0102;
    assert_eq!(
        package.downcast_ref::<ClientUpdate>(),
        Some(&ClientUpdate { number: 0x0102, pin: 2, port: 4000 })
    );
}

#[test]
fn client_and_centralex_share_bytes_but_not_types() {
    let client = Package::<Client>::deserialize(&[3, 0]).unwrap();
    let centralex = Package::<Centralex>::deserialize(&[3, 0]).unwrap();
    assert!(client.is::<itelex::client::End>());
    assert!(!client.is::<itelex::client::Heartbeat>());
    assert!(!client.is::<itelex::client::Reject>());
    assert!(centralex.is::<itelex::centralex::End>());
    assert!(!centralex.is::<itelex::centralex::RemAck>());
    assert!(centralex.downcast::<itelex::centralex::RemCall>().is_none());
}

#[test]
fn frames_are_two_bytes_longer_than_their_bodies() {
    for package in server_samples() {
        let mut frame = Vec::new();
        package.serialize(&mut frame);
        assert_eq!(frame.len(), 2 + frame[1] as usize);
        let mut body = Vec::new();
        let body_len = {
            let union = package.into_union();
            assert_eq!(union.package_length(), frame[1]);
            assert_eq!(union.package_type(), frame[0]);
            union.serialize_le(&mut body);
            body.len() - 2
        };
        assert_eq!(body_len, frame[1] as usize);
        assert_eq!(body, frame);
    }
}

#[test]
fn bodies_convert_out_of_packages() {
    let package: Package<Server> = PeerQuery { number: 77, version: 3 }.into();
    assert_eq!(PeerQuery::try_from(package), Ok(PeerQuery { number: 77, version: 3 }));
    let package: Package<Server> = PeerQuery { number: 77, version: 3 }.into();
    assert_eq!(ClientUpdate::try_from(package), Err(()));
    let package: Package<Server> = Error { message: String::from("e") }.into();
    let back: Result<Error, ()> = package.try_into();
    assert_eq!(back, Ok(Error { message: String::from("e") }));
    for (made_from, package) in server_samples().into_iter().enumerate() {
        assert_eq!(PeerReply::try_from(package).is_ok(), made_from == 4);
    }
    for (made_from, package) in server_samples().into_iter().enumerate() {
        assert_eq!(Acknowledge::try_from(package).is_ok(), made_from == 7);
    }
    let package = itelex::client::Reject { message: String::from("occ") }.to_package();
    assert_eq!(itelex::client::Heartbeat::try_from(package), Err(()));
    let package = itelex::centralex::RemAck {}.to_package();
    assert_eq!(itelex::centralex::RemAck::try_from(package), Ok(itelex::centralex::RemAck {}));
}

#[test]
fn boxed_bodies_convert_into_packages() {
    let package: Package<Server> = Box::new(PeerQuery { number: 77, version: 3 }).into();
    assert_eq!(package.package_type(), Server::PeerQuery);
    assert_eq!(
        package.downcast_ref::<PeerQuery>(),
        Some(&PeerQuery { number: 77, version: 3 })
    );
    let package = Package::<Client>::from(Box::new(itelex::client::End {}));
    assert!(package.is::<itelex::client::End>());
    let package = Package::<Centralex>::from(Box::new(itelex::centralex::RemConnect {
        number: 5,
        pin: 6,
    }));
    let mut frame = Vec::new();
    package.serialize(&mut frame);
    assert_eq!(frame, vec![0x81, 6, 5, 0, 0, 0, 6, 0]);
}
