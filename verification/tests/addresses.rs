use dns_socket::address::{socket_address_equal, Ip, SocketAddress};

fn v4_loopback(port: u16) -> SocketAddress {
    SocketAddress {
        ip: Ip::V4(127, 0, 0, 1),
        port,
    }
}

fn mapped_loopback(port: u16) -> SocketAddress {
    SocketAddress {
        ip: Ip::V6(0, 0, 0, 0, 0, 0xffff, 0x7f00, 0x0001),
        port,
    }
}

#[test]
fn plain_ipv4_equals_itself() {
    assert!(socket_address_equal(&v4_loopback(53), &v4_loopback(53)));
}

#[test]
fn mapped_ipv6_equals_its_ipv4_form() {
    assert!(socket_address_equal(&v4_loopback(53), &mapped_loopback(53)));
    assert!(socket_address_equal(&mapped_loopback(53), &v4_loopback(53)));
}

#[test]
fn different_ports_are_unequal() {
    assert!(!socket_address_equal(&v4_loopback(53), &v4_loopback(54)));
    assert!(!socket_address_equal(&v4_loopback(53), &mapped_loopback(54)));
}

#[test]
fn different_hosts_are_unequal() {
    let other = SocketAddress {
        ip: Ip::V4(10, 0, 0, 1),
        port: 53,
    };
    assert!(!socket_address_equal(&v4_loopback(53), &other));
}

#[test]
fn plain_ipv6_is_not_rewritten() {
    // ::1 is not an IPv4-mapped address, so it stays distinct from 0.0.0.1.
    let v6_loopback = SocketAddress {
        ip: Ip::V6(0, 0, 0, 0, 0, 0, 0, 1),
        port: 53,
    };
    let v4 = SocketAddress {
        ip: Ip::V4(0, 0, 0, 1),
        port: 53,
    };
    assert!(!socket_address_equal(&v6_loopback, &v4));
    assert!(socket_address_equal(&v6_loopback, &v6_loopback));
}
