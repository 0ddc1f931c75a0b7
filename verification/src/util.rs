//! Small helpers on octet strings.

use vstd::prelude::*;
use vstd::utf8::{decode_utf8, valid_utf8};

verus! {

/// Whether two octet strings are the same.
pub fn bytes_equal(a: &[u8], b: &[u8]) -> (same: bool)
    ensures
        same == (a@ == b@),
{
    if a.len() != b.len() {
        return false;
    }
    let mut i: usize = 0;
    while i < a.len()
        invariant
            i <= a@.len(),
            a@.len() == b@.len(),
            forall|j: int| 0 <= j < i ==> a@[j] == b@[j],
        decreases a@.len() - i,
    {
        if a[i] != b[i] {
            return false;
        }
        i = i + 1;
    }
    assert(a@ =~= b@);
    true
}

/// The number that two octets spell, the more significant first.
pub open spec fn be_u16_of(s: Seq<u8>) -> int
    recommends
        s.len() >= 2,
{
    s[0] as int * 256 + s[1] as int
}

/// The number that four octets spell, the most significant first.
pub open spec fn be_u32_of(s: Seq<u8>) -> int
    recommends
        s.len() >= 4,
{
    s[0] as int * 16777216 + s[1] as int * 65536 + s[2] as int * 256 + s[3] as int
}

/// Reads the two octets of `s` at `at` as a number.
pub fn be_u16(s: &[u8], at: usize) -> (n: u16)
    requires
        at + 2 <= s@.len(),
    ensures
        n == be_u16_of(s@.subrange(at as int, at + 2)),
{
    (s[at] as u16) * 256 + (s[at + 1] as u16)
}

/// Reads the four octets of `s` at `at` as a number.
pub fn be_u32(s: &[u8], at: usize) -> (n: u32)
    requires
        at + 4 <= s@.len(),
    ensures
        n == be_u32_of(s@.subrange(at as int, at + 4)),
{
    (s[at] as u32) * 16777216 + (s[at + 1] as u32) * 65536 + (s[at + 2] as u32) * 256 + (s[at
        + 3] as u32)
}

/// The length that stands at the start of `s`, and how many octets spell
/// it: one octet below 192 stands for itself; an octet from 192 to 254
/// and the next one count on from 192; the octet 255 is followed by the
/// length in four octets.
pub open spec fn packet_length_spec(s: Seq<u8>) -> Option<(int, int)> {
    if s.len() == 0 {
        None
    } else if s[0] < 192 {
        Some((s[0] as int, 1))
    } else if s[0] < 255 {
        if s.len() < 2 {
            None
        } else {
            Some(((s[0] - 192) * 256 + 192 + s[1], 2))
        }
    } else {
        if s.len() < 5 {
            None
        } else {
            Some((be_u32_of(s.subrange(1, 5)), 5))
        }
    }
}

/// Reads the length at the start of `input`; gives the length and the
/// number of octets that spell it, or `None` where the input ends too
/// early.
pub fn packet_length(input: &[u8]) -> (out: Option<(usize, usize)>)
    ensures
        match out {
            Some((len, used)) => packet_length_spec(input@) == Some((len as int, used as int)),
            None => packet_length_spec(input@) is None,
        },
{
    if input.len() == 0 {
        return None;
    }
    let first = input[0];
    if first < 192 {
        Some((first as usize, 1))
    } else if first < 255 {
        if input.len() < 2 {
            None
        } else {
            Some((((first - 192) as usize) * 256 + 192 + input[1] as usize, 2))
        }
    } else {
        if input.len() < 5 {
            None
        } else {
            Some((be_u32(input, 1) as usize, 5))
        }
    }
}

/// Calls `String::from_utf8`. Trusted: it succeeds exactly on valid
/// UTF-8, and the string then holds the characters that the octets
/// encode.
#[verifier::external_body]
pub(crate) fn utf8_string(bytes: &[u8]) -> (out: Option<String>)
    ensures
        out is Some <==> valid_utf8(bytes@),
        out matches Some(s) ==> s@ == decode_utf8(bytes@),
{
    String::from_utf8(bytes.to_vec()).ok()
}

/// Copies `N` octets of `s`, from `start` on, into an array.
pub fn array_from<const N: usize>(s: &[u8], start: usize) -> (out: [u8; N])
    requires
        start + N <= s@.len(),
    ensures
        out@ == s@.subrange(start as int, start + N),
{
    let mut out: [u8; N] = [0u8; N];
    let n: usize = s.len();
    let mut i: usize = 0;
    while i < N
        invariant
            i <= N,
            start + N <= n == s@.len(),
            forall|j: int| 0 <= j < i ==> out@[j] == s@[start + j],
        decreases N - i,
    {
        out[i] = s[start + i];
        i = i + 1;
    }
    out
}

} // verus!
