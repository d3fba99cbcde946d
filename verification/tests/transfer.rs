//! Tests of the send and receive paths, run over the pure halves that
//! stand between the datagram system calls: what one side encodes for
//! sending is handed, as the received bytes plus the sender's address,
//! to the other side's receive decision.

use dns_socket::address::{Ip, SocketAddress};
use dns_socket::error::Error;
use dns_socket::message::{DecodeError, Message, HEADER_SIZE, MESSAGE_LIMIT};
use dns_socket::transfer::{decode_received, encode_for_send, filter_and_decode};

fn query(body: &[u8]) -> Message<'_> {
    Message {
        id: 0x4242,
        flags: 0x0100,
        qdcount: 1,
        ancount: 0,
        nscount: 0,
        arcount: 0,
        body,
    }
}

fn same_message(a: &Message, b: &Message) -> bool {
    a.id == b.id
        && a.flags == b.flags
        && a.qdcount == b.qdcount
        && a.ancount == b.ancount
        && a.nscount == b.nscount
        && a.arcount == b.arcount
        && a.body == b.body
}

fn addr_b() -> SocketAddress {
    SocketAddress {
        ip: Ip::V4(127, 0, 0, 1),
        port: 40001,
    }
}

fn addr_b_mapped() -> SocketAddress {
    SocketAddress {
        ip: Ip::V6(0, 0, 0, 0, 0, 0xffff, 0x7f00, 0x0001),
        port: 40001,
    }
}

fn addr_c() -> SocketAddress {
    SocketAddress {
        ip: Ip::V4(10, 1, 2, 3),
        port: 40001,
    }
}

#[test]
fn sent_datagram_decodes_back_on_the_receiving_side() {
    let body = [1u8, 2, 3];
    let q = query(&body);
    let wire = encode_for_send(&q).unwrap();
    // The receiving side sees the transmitted bytes as the filled prefix
    // of its scratch buffer.
    let mut buf = [0u8; MESSAGE_LIMIT];
    buf[..wire.len()].copy_from_slice(&wire);
    let received = decode_received(&buf[..wire.len()]).unwrap();
    assert!(same_message(&q, &received));
}

#[test]
fn matching_sender_yields_the_message() {
    let body = [9u8; 30];
    let q = query(&body);
    let wire = encode_for_send(&q).unwrap();
    let r = filter_and_decode(&addr_b(), &addr_b(), &wire).unwrap();
    assert!(same_message(&q, &r.unwrap()));
}

#[test]
fn mapped_sender_matches_its_ipv4_expected_form() {
    let q = query(&[]);
    let wire = encode_for_send(&q).unwrap();
    let r = filter_and_decode(&addr_b(), &addr_b_mapped(), &wire).unwrap();
    assert!(same_message(&q, &r.unwrap()));
}

#[test]
fn unrelated_sender_yields_no_message_and_no_error() {
    let q = query(&[5u8, 6]);
    let wire = encode_for_send(&q).unwrap();
    let r = filter_and_decode(&addr_c(), &addr_b(), &wire).unwrap();
    assert!(r.is_none());
}

#[test]
fn matching_sender_with_malformed_bytes_is_a_decode_error() {
    let short = [0u8; 5];
    let r = filter_and_decode(&addr_b(), &addr_b(), &short);
    assert_eq!(
        r.map(|_| ()),
        Err(Error::DecodeError(DecodeError::Truncated))
    );
}

#[test]
fn oversized_message_is_refused_before_any_send() {
    let body = vec![0u8; MESSAGE_LIMIT - HEADER_SIZE + 1];
    let q = query(&body);
    let r = encode_for_send(&q);
    assert!(matches!(
        r,
        Err(Error::EncodeError(
            dns_socket::message::EncodeError::TooLong
        ))
    ));
}

#[test]
fn exchange_between_two_endpoints() {
    // One endpoint sends a query; the other receives the datagram, first
    // unconditionally, then filtered by the sender's address.
    let body = [0x03u8, b'f', b'o', b'o', 0x00, 0x00, 0x01, 0x00, 0x01];
    let q = query(&body);
    let wire = encode_for_send(&q).unwrap();

    let unconditional = decode_received(&wire).unwrap();
    assert!(same_message(&q, &unconditional));

    let from_b = filter_and_decode(&addr_b(), &addr_b(), &wire).unwrap();
    assert!(same_message(&q, &from_b.unwrap()));

    let from_c = filter_and_decode(&addr_c(), &addr_b(), &wire).unwrap();
    assert!(from_c.is_none());
}
