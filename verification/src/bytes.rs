//! Little-endian numbers in a block of memory: how they are written, and how they are read back.

use vstd::prelude::*;

verus! {

/// The two bytes of a 16-bit number, the lower one first.
pub open spec fn le16(value: u16) -> Seq<u8> {
    seq![(value % 256) as u8, (value / 256) as u8]
}

/// The four bytes of a 32-bit number, the lowest one first.
pub open spec fn le32(value: u32) -> Seq<u8> {
    seq![
        (value % 256) as u8,
        (value / 256 % 256) as u8,
        (value / 65536 % 256) as u8,
        (value / 16777216) as u8,
    ]
}

/// The bytes of a run of code units.
pub open spec fn unit_bytes(units: Seq<u16>) -> Seq<u8>
    decreases units.len(),
{
    if units.len() == 0 {
        Seq::empty()
    } else {
        unit_bytes(units.drop_last()) + le16(units.last())
    }
}

/// `count` bytes that are zero.
pub open spec fn zeros(count: nat) -> Seq<u8> {
    Seq::new(count, |i: int| 0u8)
}

/// The 16-bit number at offset `at` of a block.
pub open spec fn u16_at(block: Seq<u8>, at: int) -> int {
    block[at] + 256 * block[at + 1]
}

/// The 32-bit number at offset `at` of a block.
pub open spec fn u32_at(block: Seq<u8>, at: int) -> int {
    block[at] + 256 * block[at + 1] + 65536 * block[at + 2] + 16777216 * block[at + 3]
}

/// The `count` code units that start at offset `at` of a block.
pub open spec fn units_at(block: Seq<u8>, at: int, count: nat) -> Seq<u16> {
    Seq::new(count, |i: int| u16_at(block, at + 2 * i) as u16)
}

/// A number that stands at some offset of a block is read back from there.
pub proof fn lemma_u32_read_back(block: Seq<u8>, at: int, value: u32)
    requires
        0 <= at,
        at + 4 <= block.len(),
        block.subrange(at, at + 4) == le32(value),
    ensures
        u32_at(block, at) == value,
{
    let field = block.subrange(at, at + 4);
    assert(field[0] == block[at] && field[1] == block[at + 1]);
    assert(field[2] == block[at + 2] && field[3] == block[at + 3]);
}

/// A code unit takes two bytes, and stands at twice its index.
pub proof fn lemma_unit_bytes_index(units: Seq<u16>, i: int)
    requires
        0 <= i < units.len(),
    ensures
        unit_bytes(units).len() == 2 * units.len(),
        unit_bytes(units)[2 * i] == units[i] % 256,
        unit_bytes(units)[2 * i + 1] == units[i] / 256,
    decreases units.len(),
{
    lemma_unit_bytes_len(units);
    lemma_unit_bytes_len(units.drop_last());
    if i < units.len() - 1 {
        lemma_unit_bytes_index(units.drop_last(), i);
    }
}

/// A run of code units takes two bytes each.
pub proof fn lemma_unit_bytes_len(units: Seq<u16>)
    ensures
        unit_bytes(units).len() == 2 * units.len(),
    decreases units.len(),
{
    if units.len() > 0 {
        lemma_unit_bytes_len(units.drop_last());
    }
}

/// A run of code units that stands at some offset of a block is read back from there.
pub proof fn lemma_units_read_back(block: Seq<u8>, at: int, units: Seq<u16>)
    requires
        0 <= at,
        at + 2 * units.len() <= block.len(),
        block.subrange(at, at + 2 * units.len()) == unit_bytes(units),
    ensures
        units_at(block, at, units.len()) == units,
{
    let field = block.subrange(at, at + 2 * units.len());
    assert forall|i: int| 0 <= i < units.len() implies units_at(block, at, units.len())[i]
        == units[i] by {
        lemma_unit_bytes_index(units, i);
        assert(field[2 * i] == block[at + 2 * i]);
        assert(field[2 * i + 1] == block[at + 2 * i + 1]);
    }
}

/// Appends a 16-bit number.
pub fn push_u16(block: &mut Vec<u8>, value: u16)
    ensures
        final(block)@ == old(block)@ + le16(value),
{
    block.push((value % 256) as u8);
    block.push((value / 256) as u8);
}

/// Appends a 32-bit number.
pub fn push_u32(block: &mut Vec<u8>, value: u32)
    ensures
        final(block)@ == old(block)@ + le32(value),
{
    block.push((value % 256) as u8);
    block.push((value / 256 % 256) as u8);
    block.push((value / 65536 % 256) as u8);
    block.push((value / 16777216) as u8);
}

/// Appends a run of code units.
pub fn push_units(block: &mut Vec<u8>, units: &Vec<u16>)
    ensures
        final(block)@ == old(block)@ + unit_bytes(units@),
{
    let mut i: usize = 0;
    while i < units.len()
        invariant
            i <= units.len(),
            block@ == old(block)@ + unit_bytes(units@.take(i as int)),
        decreases units.len() - i,
    {
        push_u16(block, units[i]);
        assert(units@.take(i + 1).drop_last() =~= units@.take(i as int));
        i = i + 1;
    }
    assert(units@.take(i as int) =~= units@);
}

/// Appends bytes that are zero.
pub fn push_zeros(block: &mut Vec<u8>, count: usize)
    ensures
        final(block)@ == old(block)@ + zeros(count as nat),
{
    let mut i: usize = 0;
    while i < count
        invariant
            i <= count,
            block@ == old(block)@ + zeros(i as nat),
        decreases count - i,
    {
        block.push(0);
        i = i + 1;
    }
}

} // verus!
