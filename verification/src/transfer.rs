//! The pure halves of the socket layer's send and receive paths.
//!
//! The caller that owns the UDP socket performs the datagram system
//! calls; these functions do everything around them.  On the send side
//! they turn a message into the exact bytes to transmit; on the receive
//! side they turn the received bytes — and, for the filtered variant,
//! the sender's address — into the decoded message or the error the
//! caller reports.

use vstd::prelude::*;

use crate::address::{address_equal, socket_address_equal, SocketAddress};
use crate::error::Error;
use crate::message::{
    encodable, spec_decode, spec_decode_error, spec_encode, EncodeError, Message, MESSAGE_LIMIT,
};

verus! {

/// Encodes a message into the datagram to transmit.  The bytes returned
/// are exactly the message's wire form and never exceed
/// `MESSAGE_LIMIT`; a message whose wire form would exceed the limit is
/// reported as an encode error, never truncated.
pub fn encode_for_send(message: &Message) -> (r: Result<Vec<u8>, Error>)
    ensures
        r is Ok <==> encodable(message@),
        r matches Ok(bytes) ==> bytes@ == spec_encode(message@) && bytes@.len() <= MESSAGE_LIMIT,
        r matches Err(e) ==> e == Error::EncodeError(EncodeError::TooLong),
{
    match message.encode() {
        Ok(bytes) => Ok(bytes),
        Err(e) => Err(Error::from(e)),
    }
}

/// Decodes the bytes of a received datagram, reporting malformed bytes
/// as a decode error.  `data` must be the received prefix of the
/// scratch buffer, not the whole buffer.
pub fn decode_received<'a>(data: &'a [u8]) -> (r: Result<Message<'a>, Error>)
    ensures
        r is Ok <==> spec_decode(data@) is Some,
        r matches Ok(m) ==> spec_decode(data@) == Some(m@),
        r matches Err(e) ==> e == Error::DecodeError(spec_decode_error(data@)),
{
    match Message::decode(data) {
        Ok(m) => Ok(m),
        Err(e) => Err(Error::from(e)),
    }
}

/// The sender-filtered receive decision.  A datagram whose sender does
/// not equal the expected address under IPv4-mapped-IPv6 normalization
/// is discarded as noise: the result is "no message", not an error.  A
/// datagram from the expected sender is decoded exactly as an
/// unconditional receive would decode it.
pub fn filter_and_decode<'a>(
    expected: &SocketAddress,
    sender: &SocketAddress,
    data: &'a [u8],
) -> (r: Result<Option<Message<'a>>, Error>)
    ensures
        !address_equal(*sender, *expected) ==> (r matches Ok(m) && m is None),
        address_equal(*sender, *expected) && spec_decode(data@) is Some ==> (r matches Ok(m)
            && m matches Some(msg) && spec_decode(data@) == Some(msg@)),
        address_equal(*sender, *expected) && spec_decode(data@) is None ==> (r matches Err(e)
            && e == Error::DecodeError(spec_decode_error(data@))),
{
    if !socket_address_equal(sender, expected) {
        Ok(None)
    } else {
        match decode_received(data) {
            Ok(m) => Ok(Some(m)),
            Err(e) => Err(e),
        }
    }
}

} // verus!
