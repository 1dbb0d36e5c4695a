//! Byte-level helpers that the command buffers share.
use vstd::prelude::*;

verus! {

/// The three bytes of a 24-bit register value, most significant first.
pub open spec fn be24(bits: nat) -> Seq<u8> {
    seq![
        (bits / 0x1_0000 % 0x100) as u8,
        (bits / 0x100 % 0x100) as u8,
        (bits % 0x100) as u8,
    ]
}

/// The bytes of a 24-bit register value hold it whole: read back with the
/// most significant byte first, they give the value again.
pub proof fn lemma_be24_holds_value(bits: nat)
    requires
        bits < 0x100_0000,
    ensures
        be24(bits).len() == 3,
        be24(bits)[0] * 0x1_0000 + be24(bits)[1] * 0x100 + be24(bits)[2] == bits,
{
}

/// A buffer with the three bytes from `at` on replaced by the bytes of a
/// 24-bit register value, most significant first.
pub open spec fn with_be24(buf: Seq<u8>, at: int, bits: nat) -> Seq<u8> {
    buf.update(at, be24(bits)[0]).update(at + 1, be24(bits)[1]).update(at + 2, be24(bits)[2])
}

/// Splits a 24-bit register value into its bytes, most significant first.
pub(crate) fn split_be24(bits: u32) -> (r: (u8, u8, u8))
    ensures
        seq![r.0, r.1, r.2] == be24(bits as nat),
{
    let hi: u32 = (bits >> 16) & 0xFF;
    let mid: u32 = (bits >> 8) & 0xFF;
    let lo: u32 = bits & 0xFF;
    assert(hi == bits / 0x1_0000 % 0x100 && mid == bits / 0x100 % 0x100 && lo == bits % 0x100)
        by (bit_vector)
        requires
            hi == (bits >> 16) & 0xFF,
            mid == (bits >> 8) & 0xFF,
            lo == bits & 0xFF,
    ;
    (hi as u8, mid as u8, lo as u8)
}

/// Tells whether two buffers of one length hold the same bytes.
pub(crate) fn same_bytes(a: &[u8], b: &[u8]) -> (r: bool)
    requires
        a@.len() == b@.len(),
    ensures
        r == (a@ == b@),
{
    let mut i: usize = 0;
    while i < a.len()
        invariant
            a@.len() == b@.len(),
            i <= a@.len(),
            forall|k: int| 0 <= k < i ==> a@[k] == b@[k],
        decreases a@.len() - i,
    {
        if a[i] != b[i] {
            return false;
        }
        i += 1;
    }
    assert(a@ =~= b@);
    true
}

} // verus!
