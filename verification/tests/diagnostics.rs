use itelex::addr::{Ipv4Addr, Ipv6Addr};
use itelex::render::decimal_string;
use itelex::server::{ClientType, PeerReply, String40Bytes};
use itelex::{centralex, client, server};
use itelex::{Class, Dialect, PackageBody};

fn written_as_debug_writes<P>(body: P)
where
    P: PackageBody + std::fmt::Debug,
    P::Class: Dialect,
{
    let expected = format!("{:?}", body);
    assert_eq!(body.debug_string(), expected);
    let package = body.to_package();
    assert_eq!(
        package.debug_string(),
        format!("Package<{}>({})", <P::Class as Class>::NAME, expected)
    );
}

fn reply(kind: ClientType, number: u32) -> PeerReply {
    PeerReply {
        number,
        name: String40Bytes::from("Test \"quoted\""),
        flags: 0xffff,
        client_type: kind,
        hostname: String40Bytes::from(""),
        ipaddress: Ipv4Addr::new(0, 9, 10, 255),
        port: 134,
        extension: 100,
        pin: 65535,
        timestamp: 1_000_000_007,
    }
}

#[test]
fn decimal_digits() {
    assert_eq!(decimal_string(0), "0");
    assert_eq!(decimal_string(7), "7");
    assert_eq!(decimal_string(9), "9");
    assert_eq!(decimal_string(10), "10");
    assert_eq!(decimal_string(99), "99");
    assert_eq!(decimal_string(100), "100");
    assert_eq!(decimal_string(255), "255");
    assert_eq!(decimal_string(1009), "1009");
    assert_eq!(decimal_string(65535), "65535");
    assert_eq!(decimal_string(4278251535), "4278251535");
    assert_eq!(decimal_string(u32::MAX), "4294967295");
    for value in (0..100_000u32).step_by(37) {
        assert_eq!(decimal_string(value), value.to_string());
    }
}

#[test]
fn addresses_are_written_as_debug_writes_them() {
    for addr in [Ipv4Addr::new(0, 0, 0, 0), Ipv4Addr::new(8, 9, 10, 11), Ipv4Addr::broadcast()] {
        assert_eq!(addr.debug_string(), format!("{:?}", addr));
    }
    assert_eq!(Ipv4Addr::new(192, 168, 1, 20).debug_string(), "Ipv4Addr(192, 168, 1, 20)");
    let addrs = [
        Ipv6Addr::new(0, 0, 0, 0, 0, 0, 0, 0),
        Ipv6Addr::new(0x2001, 0x0db8, 0, 0, 0, 0, 0, 1),
        Ipv6Addr::new(0xffff, 0xffff, 0xffff, 0xffff, 0xffff, 0xffff, 0xffff, 0xffff),
    ];
    for addr in addrs {
        assert_eq!(addr.debug_string(), format!("{:?}", addr));
    }
    assert_eq!(
        Ipv6Addr::new(1, 2, 3, 4, 5, 6, 7, 65535).debug_string(),
        "Ipv6Addr(1, 2, 3, 4, 5, 6, 7, 65535)"
    );
}

#[test]
fn client_type_names() {
    let kinds = [
        ClientType::Deleted,
        ClientType::BaudotHostname,
        ClientType::BaudotIpaddress,
        ClientType::AsciiHostname,
        ClientType::AsciiIpaddress,
        ClientType::BaudotDynIp,
        ClientType::Email,
    ];
    for kind in kinds {
        assert_eq!(kind.name(), format!("{:?}", kind));
    }
    assert_eq!(ClientType::BaudotDynIp.name(), "BaudotDynIp");
}

#[test]
fn string_40_bytes_is_written_in_quotes() {
    for text in ["", "Test", "a \"b\" c", "tab\there", "line\nbreak", "Zürich \u{20ac}", "back\\slash", "nul\0"] {
        let field = String40Bytes::from(text);
        assert_eq!(field.debug_string(), format!("{:?}", field));
    }
    assert_eq!(String40Bytes::from("Test").debug_string(), "String40Bytes(\"Test\")");
}

#[test]
fn client_bodies_are_written_as_debug_writes_them() {
    written_as_debug_writes(client::Heartbeat {});
    written_as_debug_writes(client::End {});
    written_as_debug_writes(client::Reject { message: String::new() });
    written_as_debug_writes(client::Reject { message: String::from("occ") });
    written_as_debug_writes(client::Reject { message: String::from("say \"no\"\n\tnow \u{7f}") });
    assert_eq!(client::Heartbeat {}.debug_string(), "Heartbeat");
    assert_eq!(
        client::Reject { message: String::from("nc") }.debug_string(),
        "Reject { message: \"nc\" }"
    );
}

#[test]
fn server_bodies_are_written_as_debug_writes_them() {
    written_as_debug_writes(server::ClientUpdate { number: 0, pin: 0, port: 0 });
    written_as_debug_writes(server::ClientUpdate {
        number: u32::MAX,
        pin: u16::MAX,
        port: 4080,
    });
    written_as_debug_writes(server::AddressConfirm { ipaddress: Ipv4Addr::new(1, 20, 0, 255) });
    written_as_debug_writes(server::PeerQuery { number: 4711, version: 255 });
    written_as_debug_writes(server::PeerNotFound {});
    written_as_debug_writes(reply(ClientType::Deleted, 0));
    written_as_debug_writes(reply(ClientType::BaudotHostname, 1));
    written_as_debug_writes(reply(ClientType::BaudotIpaddress, 10));
    written_as_debug_writes(reply(ClientType::AsciiHostname, 100));
    written_as_debug_writes(reply(ClientType::AsciiIpaddress, 12345));
    written_as_debug_writes(reply(ClientType::BaudotDynIp, u32::MAX));
    written_as_debug_writes(reply(ClientType::Email, 999_999_999));
    written_as_debug_writes(server::FullQuery { version: 1, server_pin: 1234567890 });
    written_as_debug_writes(server::Login { version: 0, server_pin: 0 });
    written_as_debug_writes(server::Acknowledge {});
    written_as_debug_writes(server::EndOfList {});
    written_as_debug_writes(server::PeerSearch {
        version: 9,
        pattern: String40Bytes::from("Pat*ern"),
    });
    written_as_debug_writes(server::Error { message: String::from("An Error has occured!") });
    assert_eq!(
        server::PeerQuery { number: 4711, version: 1 }.debug_string(),
        "PeerQuery { number: 4711, version: 1 }"
    );
    assert_eq!(
        server::PeerSearch { version: 9, pattern: String40Bytes::from("P") }.debug_string(),
        "PeerSearch { version: 9, pattern: String40Bytes(\"P\") }"
    );
}

#[test]
fn centralex_bodies_are_written_as_debug_writes_them() {
    written_as_debug_writes(centralex::Heartbeat {});
    written_as_debug_writes(centralex::End {});
    written_as_debug_writes(centralex::Reject { message: String::from("na") });
    written_as_debug_writes(centralex::RemConnect { number: 123456, pin: 7 });
    written_as_debug_writes(centralex::RemConfirm {});
    written_as_debug_writes(centralex::RemCall {
        remote_ip_v4: Ipv4Addr::new(192, 0, 2, 1),
        remote_ip_v6: Ipv6Addr::new(0x2001, 0x0db8, 0, 0, 0, 0, 0, 1),
    });
    written_as_debug_writes(centralex::RemAck {});
    assert_eq!(
        centralex::RemCall {
            remote_ip_v4: Ipv4Addr::new(1, 2, 3, 4),
            remote_ip_v6: Ipv6Addr::new(1, 2, 3, 4, 5, 6, 7, 8),
        }
        .to_package()
        .debug_string(),
        "Package<Centralex>(RemCall { remote_ip_v4: Ipv4Addr(1, 2, 3, 4), remote_ip_v6: Ipv6Addr(1, 2, 3, 4, 5, 6, 7, 8) })"
    );
}
