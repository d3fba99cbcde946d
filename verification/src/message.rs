//! The DNS wire-message codec: a decoded message view, its encoding to
//! and decoding from datagram bytes, and the codec's error types.
//!
//! A message is a twelve-byte header — identifier, flags, and the four
//! section counts, each a big-endian 16-bit field — followed by the
//! section bytes, which this layer carries opaquely: message semantics
//! are not interpreted here, except for the response code that a server
//! uses to signal a protocol-level failure.

use vstd::prelude::*;

verus! {

/// The maximum wire size of a message, in bytes.  Scratch buffers used
/// with the receive operations must be allocated at exactly this size.
pub const MESSAGE_LIMIT: usize = 512;

/// The size of the fixed message header, in bytes.
pub const HEADER_SIZE: usize = 12;

/// Failure to decode received bytes into a message.
#[derive(Clone, Copy, Debug, PartialEq, Eq, Structural)]
pub enum DecodeError {
    /// The datagram is shorter than the fixed header.
    Truncated,
    /// The datagram is larger than `MESSAGE_LIMIT`.
    Oversized,
}

/// Failure to encode a message into wire bytes.
#[derive(Clone, Copy, Debug, PartialEq, Eq, Structural)]
pub enum EncodeError {
    /// The wire form of the message would exceed `MESSAGE_LIMIT`.
    TooLong,
}

/// A protocol-level error signaled by a server inside a successfully
/// decoded message, via the response code in the header flags.
#[derive(Clone, Copy, Debug, PartialEq, Eq, Structural)]
pub enum DnsError {
    FormatError,
    ServerFailure,
    NameError,
    NotImplemented,
    Refused,
    /// A response code this layer does not name.
    Other(u16),
}

/// The mathematical model of a message: the header fields and the
/// section bytes.
#[verifier::ext_equal]
pub ghost struct MessageModel {
    pub id: u16,
    pub flags: u16,
    pub qdcount: u16,
    pub ancount: u16,
    pub nscount: u16,
    pub arcount: u16,
    pub body: Seq<u8>,
}

/// A decoded message: the header fields as plain values, and the
/// section bytes borrowed from the caller-supplied buffer they were
/// received into.
pub struct Message<'a> {
    pub id: u16,
    pub flags: u16,
    pub qdcount: u16,
    pub ancount: u16,
    pub nscount: u16,
    pub arcount: u16,
    pub body: &'a [u8],
}

impl<'a> View for Message<'a> {
    type V = MessageModel;

    open spec fn view(&self) -> MessageModel {
        MessageModel {
            id: self.id,
            flags: self.flags,
            qdcount: self.qdcount,
            ancount: self.ancount,
            nscount: self.nscount,
            arcount: self.arcount,
            body: self.body@,
        }
    }
}

/// The high byte of a 16-bit field in big-endian order.
pub open spec fn be_hi(x: u16) -> u8 {
    (x / 256) as u8
}

/// The low byte of a 16-bit field in big-endian order.
pub open spec fn be_lo(x: u16) -> u8 {
    (x % 256) as u8
}

/// The 16-bit field read from two bytes in big-endian order.
pub open spec fn be_join(hi: u8, lo: u8) -> u16 {
    (hi as int * 256 + lo as int) as u16
}

/// The twelve header bytes of a message.
pub open spec fn header_bytes(m: MessageModel) -> Seq<u8> {
    seq![
        be_hi(m.id), be_lo(m.id),
        be_hi(m.flags), be_lo(m.flags),
        be_hi(m.qdcount), be_lo(m.qdcount),
        be_hi(m.ancount), be_lo(m.ancount),
        be_hi(m.nscount), be_lo(m.nscount),
        be_hi(m.arcount), be_lo(m.arcount),
    ]
}

/// The wire form of a message: the header bytes followed by the section
/// bytes.
pub open spec fn spec_encode(m: MessageModel) -> Seq<u8> {
    header_bytes(m) + m.body
}

/// Whether a message's wire form fits within `MESSAGE_LIMIT`.
pub open spec fn encodable(m: MessageModel) -> bool {
    HEADER_SIZE + m.body.len() <= MESSAGE_LIMIT
}

/// The message denoted by a sequence of wire bytes, or `None` where the
/// bytes are shorter than the header or longer than `MESSAGE_LIMIT`.
pub open spec fn spec_decode(bytes: Seq<u8>) -> Option<MessageModel> {
    if bytes.len() < HEADER_SIZE || bytes.len() > MESSAGE_LIMIT {
        None
    } else {
        Some(MessageModel {
            id: be_join(bytes[0], bytes[1]),
            flags: be_join(bytes[2], bytes[3]),
            qdcount: be_join(bytes[4], bytes[5]),
            ancount: be_join(bytes[6], bytes[7]),
            nscount: be_join(bytes[8], bytes[9]),
            arcount: be_join(bytes[10], bytes[11]),
            body: bytes.subrange(HEADER_SIZE as int, bytes.len() as int),
        })
    }
}

/// The decode error reported for a sequence of wire bytes that denotes
/// no message.
pub open spec fn spec_decode_error(bytes: Seq<u8>) -> DecodeError {
    if bytes.len() < HEADER_SIZE {
        DecodeError::Truncated
    } else {
        DecodeError::Oversized
    }
}

/// Splitting a 16-bit field into its big-endian bytes and joining them
/// again gives the field back.
proof fn lemma_be_split_join(x: u16)
    ensures
        be_join(be_hi(x), be_lo(x)) == x,
{
    assert(x / 256 < 256) by (nonlinear_arith);
    assert((x / 256) * 256 + x % 256 == x) by (nonlinear_arith);
}

/// Round trip: a message whose wire form fits within `MESSAGE_LIMIT`
/// decodes from its own encoding back to itself.
pub proof fn lemma_codec_round_trip(m: MessageModel)
    requires
        encodable(m),
    ensures
        spec_decode(spec_encode(m)) == Some(m),
{
    let bytes = spec_encode(m);
    assert(bytes.len() == HEADER_SIZE + m.body.len());
    lemma_be_split_join(m.id);
    lemma_be_split_join(m.flags);
    lemma_be_split_join(m.qdcount);
    lemma_be_split_join(m.ancount);
    lemma_be_split_join(m.nscount);
    lemma_be_split_join(m.arcount);
    assert(bytes.subrange(HEADER_SIZE as int, bytes.len() as int) =~= m.body);
    assert(spec_decode(bytes) matches Some(d) && d =~= m);
}

impl<'a> Message<'a> {
    /// Encodes the message into its wire bytes, or reports
    /// `EncodeError::TooLong` where the wire form would exceed
    /// `MESSAGE_LIMIT`.
    pub fn encode(&self) -> (r: Result<Vec<u8>, EncodeError>)
        ensures
            r is Ok <==> encodable(self@),
            r matches Ok(bytes) ==> bytes@ == spec_encode(self@) && bytes@.len() <= MESSAGE_LIMIT,
            r matches Err(e) ==> e == EncodeError::TooLong,
    {
        if self.body.len() > MESSAGE_LIMIT - HEADER_SIZE {
            return Err(EncodeError::TooLong);
        }
        let mut out: Vec<u8> = Vec::new();
        out.push((self.id / 256) as u8);
        out.push((self.id % 256) as u8);
        out.push((self.flags / 256) as u8);
        out.push((self.flags % 256) as u8);
        out.push((self.qdcount / 256) as u8);
        out.push((self.qdcount % 256) as u8);
        out.push((self.ancount / 256) as u8);
        out.push((self.ancount % 256) as u8);
        out.push((self.nscount / 256) as u8);
        out.push((self.nscount % 256) as u8);
        out.push((self.arcount / 256) as u8);
        out.push((self.arcount % 256) as u8);
        assert(out@ =~= header_bytes(self@));
        let mut i: usize = 0;
        while i < self.body.len()
            invariant
                i <= self.body@.len(),
                self.body@.len() + HEADER_SIZE <= MESSAGE_LIMIT,
                out@ == header_bytes(self@) + self.body@.subrange(0, i as int),
            decreases self.body@.len() - i,
        {
            out.push(self.body[i]);
            assert(out@ =~= header_bytes(self@) + self.body@.subrange(0, i + 1 as int));
            i = i + 1;
        }
        assert(self.body@.subrange(0, i as int) =~= self.body@);
        Ok(out)
    }

    /// Decodes wire bytes into a message borrowing its section bytes
    /// from `bytes`, or reports which way the bytes are malformed.
    pub fn decode(bytes: &'a [u8]) -> (r: Result<Message<'a>, DecodeError>)
        ensures
            r is Ok <==> spec_decode(bytes@) is Some,
            r matches Ok(m) ==> spec_decode(bytes@) == Some(m@),
            r matches Err(e) ==> e == spec_decode_error(bytes@),
    {
        if bytes.len() < HEADER_SIZE {
            return Err(DecodeError::Truncated);
        }
        if bytes.len() > MESSAGE_LIMIT {
            return Err(DecodeError::Oversized);
        }
        let body = vstd::slice::slice_subrange(bytes, HEADER_SIZE, bytes.len());
        let m = Message {
            id: join_bytes(*vstd::slice::slice_index_get(bytes, 0), *vstd::slice::slice_index_get(bytes, 1)),
            flags: join_bytes(*vstd::slice::slice_index_get(bytes, 2), *vstd::slice::slice_index_get(bytes, 3)),
            qdcount: join_bytes(*vstd::slice::slice_index_get(bytes, 4), *vstd::slice::slice_index_get(bytes, 5)),
            ancount: join_bytes(*vstd::slice::slice_index_get(bytes, 6), *vstd::slice::slice_index_get(bytes, 7)),
            nscount: join_bytes(*vstd::slice::slice_index_get(bytes, 8), *vstd::slice::slice_index_get(bytes, 9)),
            arcount: join_bytes(*vstd::slice::slice_index_get(bytes, 10), *vstd::slice::slice_index_get(bytes, 11)),
            body,
        };
        assert(spec_decode(bytes@) matches Some(d) && d =~= m@);
        Ok(m)
    }

    /// The protocol-level error this message signals through the
    /// response code in its header flags, or `None` where the code
    /// reports no error.
    pub fn dns_error(&self) -> (r: Option<DnsError>)
        ensures
            r == spec_dns_error(self@),
    {
        let code = self.flags % 16;
        match code {
            0 => None,
            1 => Some(DnsError::FormatError),
            2 => Some(DnsError::ServerFailure),
            3 => Some(DnsError::NameError),
            4 => Some(DnsError::NotImplemented),
            5 => Some(DnsError::Refused),
            _ => Some(DnsError::Other(code)),
        }
    }
}

/// The response code carried in a message's header flags: its low four
/// bits.
pub open spec fn spec_rcode(m: MessageModel) -> u16 {
    (m.flags % 16) as u16
}

/// The protocol-level error a message signals, by its response code.
pub open spec fn spec_dns_error(m: MessageModel) -> Option<DnsError> {
    match spec_rcode(m) {
        0u16 => None,
        1u16 => Some(DnsError::FormatError),
        2u16 => Some(DnsError::ServerFailure),
        3u16 => Some(DnsError::NameError),
        4u16 => Some(DnsError::NotImplemented),
        5u16 => Some(DnsError::Refused),
        c => Some(DnsError::Other(c)),
    }
}

/// Joins two bytes into the 16-bit field they spell in big-endian
/// order.
fn join_bytes(hi: u8, lo: u8) -> (r: u16)
    ensures
        r == be_join(hi, lo),
{
    hi as u16 * 256 + lo as u16
}

} // verus!
