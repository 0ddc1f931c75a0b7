//! The two-octet checksum behind a session key.

use vstd::prelude::*;
use crate::errors::Error;

verus! {

/// The sum of the octets of `data`.
pub open spec fn byte_sum(data: Seq<u8>) -> nat
    decreases data.len(),
{
    if data.len() == 0 {
        0
    } else {
        byte_sum(data.drop_last()) + data.last() as nat
    }
}

/// The checksum of `data`: the sum of its octets modulo 65536.
pub open spec fn simple_checksum(data: Seq<u8>) -> nat {
    byte_sum(data) % 65536
}

/// The checksum of `data` in two octets, the more significant first.
pub open spec fn checksum_bytes(data: Seq<u8>) -> Seq<u8> {
    seq![(simple_checksum(data) / 256) as u8, (simple_checksum(data) % 256) as u8]
}

/// Computes the checksum of `data`.
pub fn calculate_simple(data: &[u8]) -> (sum: u16)
    ensures
        sum == simple_checksum(data@),
{
    let mut acc: u16 = 0;
    let mut i: usize = 0;
    while i < data.len()
        invariant
            i <= data@.len(),
            acc == byte_sum(data@.take(i as int)) % 65536,
        decreases data@.len() - i,
    {
        proof {
            let next = data@.take(i + 1);
            assert(next.drop_last() =~= data@.take(i as int));
        }
        acc = ((acc as u32 + data[i] as u32) % 65536) as u16;
        i = i + 1;
    }
    assert(data@.take(i as int) =~= data@);
    acc
}

/// Holds the checksum of `data` against the two octets `actual`. Fails
/// with `ChecksumMismatch` unless `actual` starts with the checksum.
pub fn simple(actual: &[u8], data: &[u8]) -> (out: Result<(), Error>)
    ensures
        out is Ok <==> actual@.len() >= 2 && actual@.take(2) == checksum_bytes(data@),
        out matches Err(e) ==> e == Error::ChecksumMismatch,
{
    let expected = calculate_simple(data);
    if actual.len() < 2 {
        return Err(Error::ChecksumMismatch);
    }
    let high: u8 = (expected / 256) as u8;
    let low: u8 = (expected % 256) as u8;
    if actual[0] == high && actual[1] == low {
        assert(actual@.take(2) =~= checksum_bytes(data@));
        Ok(())
    } else {
        Err(Error::ChecksumMismatch)
    }
}

/// A checksum that was computed for a key is the one that the key is
/// later held against.
pub proof fn lemma_checksum_matches(data: Seq<u8>)
    ensures
        checksum_bytes(data).len() == 2,
        checksum_bytes(data)[0] * 256 + checksum_bytes(data)[1] == byte_sum(data) % 65536,
{
}

} // verus!
