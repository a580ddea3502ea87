//! The ICMP checksum: the one's-complement of the one's-complement sum
//! of the packet interpreted as big-endian 16-bit words, with the
//! checksum field itself treated as zero while summing.

use vstd::prelude::*;

verus! {

/// The value of one big-endian 16-bit word made of two bytes.
pub open spec fn be_word(hi: u8, lo: u8) -> int {
    hi * 256 + lo
}

/// The plain sum of the big-endian 16-bit words of `bytes` from index `i`
/// on (a trailing odd byte contributes nothing; the packets built here
/// always have even length).
pub open spec fn word_sum_from(bytes: Seq<u8>, i: int) -> int
    decreases bytes.len() - i,
{
    if 0 <= i && i + 2 <= bytes.len() {
        be_word(bytes[i], bytes[i + 1]) + word_sum_from(bytes, i + 2)
    } else {
        0
    }
}

/// The plain sum of all big-endian 16-bit words of `bytes`.
pub open spec fn word_sum(bytes: Seq<u8>) -> int {
    word_sum_from(bytes, 0)
}

/// One's-complement carry folding: add the carry bits above 16 back into
/// the low 16 bits until the sum fits in 16 bits.
pub open spec fn fold_carries(sum: int) -> int
    decreases sum,
{
    if sum <= 0xFFFF {
        sum
    } else {
        fold_carries(sum % 0x10000 + sum / 0x10000)
    }
}

/// The ICMP checksum of `bytes`: the 16-bit one's-complement of the
/// folded word sum. The caller passes the packet bytes with the checksum
/// field already cleared.
pub open spec fn icmp_checksum_spec(bytes: Seq<u8>) -> int {
    0xFFFF - fold_carries(word_sum(bytes))
}

/// Computes the ICMP checksum of `data`, exactly as `icmp_checksum_spec`
/// states it: sum the big-endian 16-bit words, fold the carries, and
/// take the one's complement.
pub fn icmp_checksum(data: &Vec<u8>) -> (r: u16)
    requires
        data@.len() % 2 == 0,
        data@.len() < 0x1_0000_0000,
    ensures
        r == icmp_checksum_spec(data@),
{
    let n: usize = data.len();
    let mut sum: u64 = 0;
    let mut i: usize = 0;
    while i < n
        invariant
            i <= n,
            n == data@.len(),
            i % 2 == 0,
            n % 2 == 0,
            n < 0x1_0000_0000,
            sum <= 0xFFFF * i,
            sum + word_sum_from(data@, i as int) == word_sum(data@),
        decreases n - i,
    {
        assert(i + 2 <= n);
        let hi: u8 = data[i];
        let lo: u8 = data[i + 1];
        sum = sum + (hi as u64) * 256 + (lo as u64);
        i = i + 2;
    }
    while sum > 0xFFFF
        invariant
            fold_carries(sum as int) == fold_carries(word_sum(data@)),
        decreases sum,
    {
        sum = sum % 0x10000 + sum / 0x10000;
    }
    0xFFFF - (sum as u16)
}

} // verus!
