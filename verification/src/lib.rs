//! A small verified library for building and transmitting ICMPv4 Echo
//! Request packets.
//!
//! The library constructs the 8-byte Echo Request header, computes the
//! standard one's-complement checksum over it, and drives a single send
//! over a caller-supplied raw transport, reporting the outcome of the
//! local send operation.

pub mod checksum;
pub mod packet;
pub mod transmit;
