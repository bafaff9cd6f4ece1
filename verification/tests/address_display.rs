use proxy_bridge::address::{EndpointAddress, SocketAddress};
use shadowsocks::relay::Address;
use shadowsocks::ServerAddr;

fn text_of(address: &EndpointAddress) -> String {
    String::from_utf8(address.to_text()).expect("address text is UTF-8")
}

/// The address in the longest form there is, which every parser takes.
fn spelled_out(groups: [u16; 8], port: u16) -> String {
    format!(
        "[{:x}:{:x}:{:x}:{:x}:{:x}:{:x}:{:x}:{:x}]:{}",
        groups[0], groups[1], groups[2], groups[3], groups[4], groups[5], groups[6], groups[7], port
    )
}

fn displayed_v6(groups: [u16; 8], port: u16) -> String {
    let parsed: Address = spelled_out(groups, port).parse().expect("a socket address");
    assert!(matches!(parsed, Address::SocketAddress(..)));
    parsed.to_string()
}

fn library_v6(groups: [u16; 8], port: u16) -> String {
    text_of(&EndpointAddress::Socket(SocketAddress::V6 { groups, port, flowinfo: 0, scope_id: 0 }))
}

#[test]
fn ipv6_text_is_what_address_displays_for_every_pattern_of_zero_groups() {
    for pattern in 0u16..256 {
        let mut groups = [0u16; 8];
        for (i, group) in groups.iter_mut().enumerate() {
            if pattern & (1 << i) != 0 {
                *group = 0x1a0 + (i as u16) * 0x111;
            }
        }
        assert_eq!(library_v6(groups, 443), displayed_v6(groups, 443));
    }
}

#[test]
fn ipv6_text_is_what_address_displays_around_the_mapped_prefix() {
    for fifth in [0u16, 1, 0xfffe, 0xffff] {
        for sixth in [0u16, 1, 0xfffe, 0xffff] {
            for seventh in [0u16, 0xffff, 0x7f00, 0x0a00] {
                for last in [0u16, 1, 0x00ff, 0xff00, 0xffff] {
                    let groups = [0, 0, 0, 0, fifth, sixth, seventh, last];
                    assert_eq!(library_v6(groups, 8388), displayed_v6(groups, 8388));
                }
            }
        }
    }
}

#[test]
fn ipv6_text_is_what_address_displays_for_groups_of_every_width() {
    for value in [0x1u16, 0xf, 0x10, 0xff, 0x100, 0xfff, 0x1000, 0xffff, 0xabcd, 0x0a0b] {
        let groups = [value, 0, value, 0, 0, value, 0, value];
        assert_eq!(library_v6(groups, 1), displayed_v6(groups, 1));
        let groups = [value; 8];
        assert_eq!(library_v6(groups, 1), displayed_v6(groups, 1));
    }
}

#[test]
fn ipv4_text_is_what_address_displays() {
    for octets in [[0u8, 0, 0, 0], [1, 20, 200, 255], [192, 168, 1, 10], [10, 0, 0, 1], [9, 99, 100, 101]]
    {
        for port in [0u16, 1, 9, 10, 99, 100, 999, 1000, 9999, 10000, 65535] {
            let spelled =
                format!("{}.{}.{}.{}:{}", octets[0], octets[1], octets[2], octets[3], port);
            let parsed: Address = spelled.parse().expect("a socket address");
            assert!(matches!(parsed, Address::SocketAddress(..)));
            let library = text_of(&EndpointAddress::Socket(SocketAddress::V4 { octets, port }));
            assert_eq!(library, parsed.to_string());
        }
    }
}

#[test]
fn every_octet_is_written_as_address_displays_it() {
    for octet in 0u8..=255 {
        let spelled = format!("{}.0.0.{}:80", octet, octet);
        let parsed: Address = spelled.parse().expect("a socket address");
        let library =
            text_of(&EndpointAddress::Socket(SocketAddress::V4 { octets: [octet, 0, 0, octet], port: 80 }));
        assert_eq!(library, parsed.to_string());
    }
}

#[test]
fn domain_text_is_what_address_displays() {
    for (host, port) in [("example.com", 443u16), ("proxy.internal", 3128), ("bücher.example", 80), ("a", 0)] {
        let displayed = Address::DomainNameAddress(host.to_string(), port).to_string();
        let library = text_of(&EndpointAddress::DomainName(host.to_string(), port));
        assert_eq!(library, displayed);
    }
}

#[test]
fn upstream_text_is_what_server_addr_displays() {
    let parsed: ServerAddr = "10.0.0.1:8388".parse().expect("a server address");
    assert!(matches!(parsed, ServerAddr::SocketAddr(..)));
    assert_eq!(
        text_of(&EndpointAddress::Socket(SocketAddress::V4 { octets: [10, 0, 0, 1], port: 8388 })),
        parsed.to_string()
    );
    let parsed: ServerAddr = "[2001:db8:0:0:0:0:0:1]:1080".parse().expect("a server address");
    assert!(matches!(parsed, ServerAddr::SocketAddr(..)));
    assert_eq!(library_v6([0x2001, 0xdb8, 0, 0, 0, 0, 0, 1], 1080), parsed.to_string());
    let named = ServerAddr::DomainName(String::from("proxy.example"), 3128);
    assert_eq!(
        text_of(&EndpointAddress::DomainName(String::from("proxy.example"), 3128)),
        named.to_string()
    );
}

#[test]
fn scoped_ipv6_text_is_what_server_addr_displays() {
    let parsed: ServerAddr = "[fe80::1%5]:1080".parse().expect("a server address");
    assert!(matches!(parsed, ServerAddr::SocketAddr(..)));
    let library = text_of(&EndpointAddress::Socket(SocketAddress::V6 {
        groups: [0xfe80, 0, 0, 0, 0, 0, 0, 1],
        port: 1080,
        flowinfo: 0,
        scope_id: 5,
    }));
    assert_eq!(library, parsed.to_string());
}
