//! Multiprecision integers as packets carry them.

use vstd::prelude::*;

verus! {

/// The octets of `s` without its leading zero octets.
pub open spec fn strip_leading_zeros(s: Seq<u8>) -> Seq<u8>
    decreases s.len(),
{
    if s.len() > 0 && s[0] == 0 {
        strip_leading_zeros(s.drop_first())
    } else {
        s
    }
}

/// How many zero octets `s` starts with.
pub open spec fn leading_zeros(s: Seq<u8>) -> nat
    decreases s.len(),
{
    if s.len() > 0 && s[0] == 0 {
        1 + leading_zeros(s.drop_first())
    } else {
        0
    }
}

/// `s` moved to the right end of a field of `width` octets, with zero
/// octets in front of it.
pub open spec fn right_aligned(s: Seq<u8>, width: nat) -> Seq<u8>
    recommends
        s.len() <= width,
{
    Seq::new((width - s.len()) as nat, |i: int| 0u8) + s
}

/// Stripping removes exactly the leading zero octets: what is left is the
/// tail of `s` behind them, and it does not start with a zero octet.
pub proof fn lemma_strip_is_suffix(s: Seq<u8>)
    ensures
        leading_zeros(s) <= s.len(),
        strip_leading_zeros(s) == s.subrange(leading_zeros(s) as int, s.len() as int),
        forall|i: int| 0 <= i < leading_zeros(s) ==> s[i] == 0,
        leading_zeros(s) < s.len() ==> s[leading_zeros(s) as int] != 0,
    decreases s.len(),
{
    if s.len() > 0 && s[0] == 0 {
        let t = s.drop_first();
        lemma_strip_is_suffix(t);
        assert forall|i: int| 0 <= i < leading_zeros(s) implies s[i] == 0 by {
            if i > 0 {
                assert(s[i] == t[i - 1]);
            }
        }
    }
}

/// The index of the first nonzero octet decides how many zeros lead.
pub proof fn lemma_leading_zeros_at(s: Seq<u8>, k: int)
    requires
        0 <= k <= s.len(),
        forall|i: int| 0 <= i < k ==> s[i] == 0,
        k < s.len() ==> s[k] != 0,
    ensures
        leading_zeros(s) == k,
    decreases s.len(),
{
    if s.len() > 0 && s[0] == 0 {
        lemma_leading_zeros_at(s.drop_first(), k - 1);
    }
}

/// A field that lost its leading zeros comes back whole when what is left
/// is moved to the right end of a field of the old width.
pub proof fn lemma_right_align_restores(s: Seq<u8>)
    ensures
        strip_leading_zeros(s).len() <= s.len(),
        right_aligned(strip_leading_zeros(s), s.len()) == s,
{
    lemma_strip_is_suffix(s);
}

/// A big-endian unsigned integer without leading zero octets.
#[derive(Debug, Clone)]
pub struct Mpi {
    bytes: Vec<u8>,
}

impl View for Mpi {
    type V = Seq<u8>;

    closed spec fn view(&self) -> Seq<u8> {
        self.bytes@
    }
}

impl Mpi {
    /// The integer does not start with a zero octet.
    pub open spec fn wf(&self) -> bool {
        self@.len() > 0 ==> self@[0] != 0
    }

    /// Takes the octets of an integer and drops its leading zeros.
    pub fn from_raw(v: Vec<u8>) -> (m: Mpi)
        ensures
            m@ == strip_leading_zeros(v@),
            m.wf(),
    {
        Mpi::from_slice(v.as_slice())
    }

    /// Copies the octets of an integer and drops its leading zeros.
    pub fn from_slice(raw: &[u8]) -> (m: Mpi)
        ensures
            m@ == strip_leading_zeros(raw@),
            m.wf(),
    {
        let mut start: usize = 0;
        while start < raw.len() && raw[start] == 0
            invariant
                start <= raw.len(),
                forall|i: int| 0 <= i < start ==> raw@[i] == 0,
            decreases raw.len() - start,
        {
            start = start + 1;
        }
        proof {
            lemma_leading_zeros_at(raw@, start as int);
            lemma_strip_is_suffix(raw@);
        }
        let mut bytes: Vec<u8> = Vec::new();
        let mut i: usize = start;
        while i < raw.len()
            invariant
                start <= i <= raw.len(),
                bytes@ == raw@.subrange(start as int, i as int),
            decreases raw.len() - i,
        {
            bytes.push(raw[i]);
            i = i + 1;
        }
        Mpi { bytes }
    }

    /// The number of octets.
    pub fn len(&self) -> (n: usize)
        ensures
            n == self@.len(),
    {
        self.bytes.len()
    }

    /// Whether the integer has no octets.
    pub fn is_empty(&self) -> (b: bool)
        ensures
            b == (self@.len() == 0),
    {
        self.bytes.len() == 0
    }

    /// The octets, most significant first.
    pub fn as_bytes(&self) -> (s: &[u8])
        ensures
            s@ == self@,
    {
        self.bytes.as_slice()
    }

    /// The most significant octet, if there is one.
    pub fn first(&self) -> (b: Option<u8>)
        ensures
            b == (if self@.len() > 0 {
                Some(self@[0])
            } else {
                None
            }),
    {
        if self.bytes.len() > 0 {
            Some(self.bytes[0])
        } else {
            None
        }
    }
}

} // verus!
