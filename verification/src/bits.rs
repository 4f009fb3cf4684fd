//! Bit-level model of the chip's one-byte registers.
//!
//! Every register of the chip is a fixed-width unsigned value whose named
//! fields are bit ranges.  The two spec functions [`bit`] and [`with_bit`]
//! are the vocabulary in which all register contracts are stated.

use vstd::prelude::*;

verus! {

/// True when bit `i` of `v` is set.
pub open spec fn bit(v: u8, i: u8) -> bool {
    (v >> i) & 1 == 1
}

/// `v` with bit `i` forced to `b`; all other bits unchanged.
pub open spec fn with_bit(v: u8, i: u8, b: bool) -> u8 {
    if b {
        v | (1u8 << i)
    } else {
        v & !(1u8 << i)
    }
}

/// Every register field round-trips: setting bit `i` to `b` makes a read of
/// bit `i` yield exactly `b`, and leaves every other bit as it was,
/// independent of the register's current contents.
pub proof fn lemma_bit_update(v: u8, i: u8, j: u8, b: bool)
    by (bit_vector)
    requires
        i < 8,
        j < 8,
    ensures
        bit(with_bit(v, i, b), j) == if i == j { b } else { bit(v, j) },
{
}

/// Read bit `i` of `v`.
pub fn get_bit(v: u8, i: u8) -> (r: bool)
    requires
        i < 8,
    ensures
        r == bit(v, i),
{
    ((v >> i) & 1) == 1
}

/// `v` with bit `i` forced to `b`.
pub fn put_bit(v: u8, i: u8, b: bool) -> (r: u8)
    requires
        i < 8,
    ensures
        r == with_bit(v, i, b),
{
    if b {
        v | (1u8 << i)
    } else {
        v & !(1u8 << i)
    }
}

/// The byte whose low six bits are the six given booleans, one per RX pipe.
pub open spec fn pack6(b0: bool, b1: bool, b2: bool, b3: bool, b4: bool, b5: bool) -> u8 {
    (if b0 { 1u8 } else { 0u8 }) | (if b1 { 2u8 } else { 0u8 }) | (if b2 { 4u8 } else { 0u8 })
        | (if b3 { 8u8 } else { 0u8 }) | (if b4 { 16u8 } else { 0u8 })
        | (if b5 { 32u8 } else { 0u8 })
}

/// The byte that mirrors a six-entry per-pipe boolean table, index `i`
/// mapped to bit `i`.
pub open spec fn pipes_byte(t: Seq<bool>) -> u8 {
    pack6(t[0], t[1], t[2], t[3], t[4], t[5])
}

/// Bit `i` of a packed six-entry table is exactly entry `i`, and the two
/// high bits are clear.
pub proof fn lemma_pack6_bits(b0: bool, b1: bool, b2: bool, b3: bool, b4: bool, b5: bool)
    by (bit_vector)
    ensures
        bit(pack6(b0, b1, b2, b3, b4, b5), 0) == b0,
        bit(pack6(b0, b1, b2, b3, b4, b5), 1) == b1,
        bit(pack6(b0, b1, b2, b3, b4, b5), 2) == b2,
        bit(pack6(b0, b1, b2, b3, b4, b5), 3) == b3,
        bit(pack6(b0, b1, b2, b3, b4, b5), 4) == b4,
        bit(pack6(b0, b1, b2, b3, b4, b5), 5) == b5,
        !bit(pack6(b0, b1, b2, b3, b4, b5), 6),
        !bit(pack6(b0, b1, b2, b3, b4, b5), 7),
{
}

/// Per-pipe boolean tables round-trip through the packed register byte:
/// converting a six-entry table to its byte and reading the bits back
/// yields the original table, for every combination of entries.
pub proof fn lemma_pipes_roundtrip(t: Seq<bool>)
    requires
        t.len() == 6,
    ensures
        forall|i: int| 0 <= i < 6 ==> #[trigger] bit(pipes_byte(t), i as u8) == t[i],
{
    lemma_pack6_bits(t[0], t[1], t[2], t[3], t[4], t[5]);
}

/// Pack a six-entry pipe table into its register byte.
pub fn pack_pipes(t: &[bool; 6]) -> (r: u8)
    ensures
        r == pipes_byte(t@),
{
    (if t[0] { 1u8 } else { 0u8 }) | (if t[1] { 2u8 } else { 0u8 }) | (if t[2] { 4u8 } else { 0u8 })
        | (if t[3] { 8u8 } else { 0u8 }) | (if t[4] { 16u8 } else { 0u8 })
        | (if t[5] { 32u8 } else { 0u8 })
}

/// Unpack a register byte into its six-entry pipe table.
pub fn unpack_pipes(v: u8) -> (r: [bool; 6])
    ensures
        forall|i: int| 0 <= i < 6 ==> #[trigger] r@[i] == bit(v, i as u8),
{
    [
        get_bit(v, 0),
        get_bit(v, 1),
        get_bit(v, 2),
        get_bit(v, 3),
        get_bit(v, 4),
        get_bit(v, 5),
    ]
}

} // verus!
