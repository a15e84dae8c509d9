//! Access to fixed-width sub-fields of a register word.

use vstd::prelude::*;

verus! {

/// The value of the four bits of `raw` that start at bit `start`.
pub open spec fn nibble_at(raw: u32, start: usize) -> u8 {
    ((raw >> start) & 0xf) as u8
}

/// Relies on arbitrary_int's `UInt::<u8, 4>::extract_u32`, which masks the
/// four bits of `raw` that start at `start` (and panics unless they lie in a
/// `u32`), and on `UInt::value`, which hands the stored number back.
#[verifier::external_body]
pub(crate) fn extract_u4(raw: u32, start: usize) -> (r: u8)
    requires
        start + 4 <= 32,
    ensures
        r == nibble_at(raw, start),
{
    arbitrary_int::u4::extract_u32(raw, start).value()
}

/// Whether bit `n` of `raw` is set.
pub open spec fn bit_at(raw: u32, n: u32) -> bool {
    (raw >> n) & 1 == 1
}

/// Reads bit `n` of `raw`.
pub fn read_bit(raw: u32, n: u32) -> (r: bool)
    requires
        n < 32,
    ensures
        r == bit_at(raw, n),
{
    (raw >> n) & 1 == 1
}

/// `raw` with bit `n` set to `v` and every other bit kept.
pub open spec fn with_bit(raw: u32, n: u32, v: bool) -> u32 {
    if v {
        raw | (1u32 << n)
    } else {
        raw & !(1u32 << n)
    }
}

/// Writes bit `n` of `raw`.
pub fn write_bit(raw: u32, n: u32, v: bool) -> (r: u32)
    requires
        n < 32,
    ensures
        r == with_bit(raw, n, v),
        bit_at(r, n) == v,
        forall|m: u32| m < 32 && m != n ==> bit_at(r, m) == bit_at(raw, m),
{
    let r = if v {
        raw | (1u32 << n)
    } else {
        raw & !(1u32 << n)
    };
    proof {
        lemma_with_bit(raw, n, v);
    }
    r
}

/// Setting one bit reads back as set and leaves the others alone.
pub proof fn lemma_with_bit(raw: u32, n: u32, v: bool)
    requires
        n < 32,
    ensures
        bit_at(with_bit(raw, n, v), n) == v,
        forall|m: u32| m < 32 && m != n ==> #[trigger] bit_at(with_bit(raw, n, v), m) == bit_at(raw, m),
{
    if v {
        assert(((raw | (1u32 << n)) >> n) & 1 == 1) by (bit_vector)
            requires n < 32;
        assert forall|m: u32| m < 32 && m != n implies #[trigger] bit_at(with_bit(raw, n, v), m) == bit_at(raw, m) by {
            assert(((raw | (1u32 << n)) >> m) & 1 == (raw >> m) & 1) by (bit_vector)
                requires n < 32, m < 32, m != n;
        }
    } else {
        assert(((raw & !(1u32 << n)) >> n) & 1 == 0) by (bit_vector)
            requires n < 32;
        assert forall|m: u32| m < 32 && m != n implies #[trigger] bit_at(with_bit(raw, n, v), m) == bit_at(raw, m) by {
            assert(((raw & !(1u32 << n)) >> m) & 1 == (raw >> m) & 1) by (bit_vector)
                requires n < 32, m < 32, m != n;
        }
    }
}

} // verus!
