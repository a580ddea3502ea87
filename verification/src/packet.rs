//! The ICMPv4 Echo Request header: an 8-byte packet with type 8, code 0,
//! a one's-complement checksum, and an identifier/sequence pair.

use vstd::prelude::*;
use vstd::assert_seqs_equal;
use crate::checksum::icmp_checksum;
use crate::checksum::icmp_checksum_spec;

verus! {

/// An ICMPv4 Echo Request header. The wire form is 8 bytes: type, code,
/// checksum (big-endian), identifier (big-endian), sequence (big-endian).
#[derive(Clone, Copy, Debug, PartialEq, Eq, Structural)]
pub struct EchoRequestPacket {
    pub icmp_type: u8,
    pub icmp_code: u8,
    pub checksum: u16,
    pub identifier: u16,
    pub sequence: u16,
}

impl EchoRequestPacket {
    /// The 8 bytes of the header as they go on the wire.
    pub open spec fn header_bytes(self) -> Seq<u8> {
        seq![
            self.icmp_type,
            self.icmp_code,
            (self.checksum / 256) as u8,
            (self.checksum % 256) as u8,
            (self.identifier / 256) as u8,
            (self.identifier % 256) as u8,
            (self.sequence / 256) as u8,
            (self.sequence % 256) as u8,
        ]
    }

    /// The 8 header bytes with the checksum field cleared: the input over
    /// which the checksum is computed.
    pub open spec fn checksum_input(self) -> Seq<u8> {
        seq![
            self.icmp_type,
            self.icmp_code,
            0u8,
            0u8,
            (self.identifier / 256) as u8,
            (self.identifier % 256) as u8,
            (self.sequence / 256) as u8,
            (self.sequence % 256) as u8,
        ]
    }

    /// A well-formed Echo Request: type 8, code 0, and a checksum that is
    /// exactly the one the algorithm yields over the cleared header.
    pub open spec fn wf(self) -> bool {
        &&& self.icmp_type == 8
        &&& self.icmp_code == 0
        &&& self.checksum == icmp_checksum_spec(self.checksum_input())
    }

    /// The header bytes with the checksum field cleared, as a vector.
    pub fn checksum_input_bytes(&self) -> (r: Vec<u8>)
        ensures
            r@ == self.checksum_input(),
    {
        let mut v: Vec<u8> = Vec::new();
        v.push(self.icmp_type);
        v.push(self.icmp_code);
        v.push(0u8);
        v.push(0u8);
        v.push((self.identifier / 256) as u8);
        v.push((self.identifier % 256) as u8);
        v.push((self.sequence / 256) as u8);
        v.push((self.sequence % 256) as u8);
        proof {
            assert_seqs_equal!(v@ == self.checksum_input());
        }
        v
    }

    /// The 8 wire bytes of the header, checksum included.
    pub fn to_bytes(&self) -> (r: Vec<u8>)
        ensures
            r@ == self.header_bytes(),
    {
        let mut v: Vec<u8> = Vec::new();
        v.push(self.icmp_type);
        v.push(self.icmp_code);
        v.push((self.checksum / 256) as u8);
        v.push((self.checksum % 256) as u8);
        v.push((self.identifier / 256) as u8);
        v.push((self.identifier % 256) as u8);
        v.push((self.sequence / 256) as u8);
        v.push((self.sequence % 256) as u8);
        proof {
            assert_seqs_equal!(v@ == self.header_bytes());
        }
        v
    }

    /// Recomputes the checksum over the cleared header and compares it to
    /// the stored field; a stale checksum makes the packet invalid.
    pub fn checksum_is_valid(&self) -> (r: bool)
        ensures
            r == self.wf(),
    {
        if self.icmp_type != 8 || self.icmp_code != 0 {
            return false;
        }
        let input: Vec<u8> = self.checksum_input_bytes();
        let expected: u16 = icmp_checksum(&input);
        self.checksum == expected
    }
}

/// Builds an Echo Request with the given identifier and sequence: type 8,
/// code 0, and the checksum computed over the cleared header.
pub fn build_echo_request(identifier: u16, sequence: u16) -> (r: EchoRequestPacket)
    ensures
        r.icmp_type == 8,
        r.icmp_code == 0,
        r.identifier == identifier,
        r.sequence == sequence,
        r.wf(),
{
    let mut p = EchoRequestPacket {
        icmp_type: 8,
        icmp_code: 0,
        checksum: 0,
        identifier,
        sequence,
    };
    let input: Vec<u8> = p.checksum_input_bytes();
    let c: u16 = icmp_checksum(&input);
    p.checksum = c;
    p
}

/// Law: in a well-formed Echo Request, clearing the checksum field of the
/// wire bytes and recomputing the checksum over what remains yields
/// exactly the transmitted checksum value.
pub proof fn lemma_checksum_round_trip(p: EchoRequestPacket)
    requires
        p.wf(),
    ensures
        p.checksum == icmp_checksum_spec(p.header_bytes().update(2, 0u8).update(3, 0u8)),
{
    assert_seqs_equal!(p.header_bytes().update(2, 0u8).update(3, 0u8) == p.checksum_input());
}

} // verus!
