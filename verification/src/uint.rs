//! 256-bit integers held as four 64-bit limbs, and byte strings read as integers.

use vstd::prelude::*;

verus! {

/// The base in which limbs are digits: 2^64.
pub open spec fn limb_radix() -> nat {
    0x1_0000_0000_0000_0000nat
}

/// The number whose base-2^64 digits are the four limbs `l`, least significant first.
pub open spec fn limbs_value(l: Seq<u64>) -> nat
    recommends
        l.len() == 4,
{
    (l[0] as nat) + limb_radix() * ((l[1] as nat) + limb_radix() * ((l[2] as nat) + limb_radix()
        * (l[3] as nat)))
}

/// The number whose base-256 digits are the bytes `b`, least significant first.
pub open spec fn le_bytes_value(b: Seq<u8>) -> nat
    decreases b.len(),
{
    if b.len() == 0 {
        0
    } else {
        (b[0] as nat) + 256 * le_bytes_value(b.drop_first())
    }
}

/// Four limbs are determined by the number they spell.
pub proof fn lemma_limbs_value_injective(a: Seq<u64>, b: Seq<u64>)
    requires
        a.len() == 4,
        b.len() == 4,
        limbs_value(a) == limbs_value(b),
    ensures
        a =~= b,
{
}

/// Whether two limb arrays spell the same number.
pub fn limbs_equal(a: &[u64; 4], b: &[u64; 4]) -> (r: bool)
    ensures
        r == (limbs_value(a@) == limbs_value(b@)),
{
    proof {
        if limbs_value(a@) == limbs_value(b@) {
            lemma_limbs_value_injective(a@, b@);
        }
    }
    a[0] == b[0] && a[1] == b[1] && a[2] == b[2] && a[3] == b[3]
}

/// Whether the number that `a` spells is below the number that `b` spells.
pub fn limbs_less(a: &[u64; 4], b: &[u64; 4]) -> (r: bool)
    ensures
        r == (limbs_value(a@) < limbs_value(b@)),
{
    if a[3] != b[3] {
        a[3] < b[3]
    } else if a[2] != b[2] {
        a[2] < b[2]
    } else if a[1] != b[1] {
        a[1] < b[1]
    } else {
        a[0] < b[0]
    }
}

} // verus!
