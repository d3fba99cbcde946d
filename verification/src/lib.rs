//! A minimal transport layer for exchanging DNS messages over UDP.
//!
//! The crate models the values that the socket layer reasons about —
//! socket addresses, wire messages, and a unified error taxonomy — and
//! verifies the pure halves of the send and receive paths: encoding a
//! message for transmission, decoding a received datagram, and the
//! sender-filtered receive decision.  The socket handle itself and the
//! datagram system calls live with the caller; they hand this crate
//! plain values and take plain values back.

pub mod address;
pub mod message;
pub mod error;
pub mod transfer;
