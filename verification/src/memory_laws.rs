//! What stands where in the blocks of memory that a drop target is handed, byte by byte.

use vstd::prelude::*;

use crate::bytes::{
    le16, le32, lemma_unit_bytes_index, lemma_unit_bytes_len, unit_bytes, zeros,
};
use crate::memory::{
    drop_files_block, file_descriptor, file_group_block, lemma_file_descriptor_at,
    lemma_file_descriptor_len, lemma_file_descriptors_len, name_fits,
};
use crate::wide::{drop_list_units, strings, terminated};

verus! {

/// The bytes of a 16-bit number are its digits to the base 256, the lower one first.
pub proof fn law_two_bytes_make_the_number(value: u16)
    ensures
        le16(value).len() == 2,
        le16(value)[0] + 256 * le16(value)[1] == value,
{
}

/// The bytes of a 32-bit number are its digits to the base 256, the lowest one first.
pub proof fn law_four_bytes_make_the_number(value: u32)
    ensures
        le32(value).len() == 4,
        le32(value)[0] + 256 * le32(value)[1] + 65536 * le32(value)[2] + 16777216 * le32(value)[3]
            == value,
{
}

/// A run of code units takes two bytes each and keeps every unit, whatever its value: the two
/// bytes at twice its index make it.
pub proof fn law_units_keep_their_values(units: Seq<u16>, i: int)
    requires
        0 <= i < units.len(),
    ensures
        unit_bytes(units).len() == 2 * units.len(),
        unit_bytes(units)[2 * i] + 256 * unit_bytes(units)[2 * i + 1] == units[i],
{
    lemma_unit_bytes_index(units, i);
}

/// Nothing but zeros fills what is left over, and as many as were asked for.
pub proof fn law_filling_is_zero(count: nat)
    ensures
        zeros(count).len() == count,
        forall|i: int| 0 <= i < count ==> #[trigger] zeros(count)[i] == 0,
{
}

/// The contents of a list of wide strings are those of each of them, in their order.
pub proof fn law_strings_are_the_contents(list: Seq<Vec<u16>>)
    ensures
        strings(list).len() == list.len(),
        forall|i: int| 0 <= i < list.len() ==> #[trigger] strings(list)[i] == list[i]@,
{
}

/// A drop list of no paths is one zero. One more path takes the place of that zero, with all its
/// units, and two zeros follow it: the one that ends the path and the one that ends the list. The
/// paths before it stay where they are.
pub proof fn law_drop_lists_grow_by_a_path(paths: Seq<Seq<u16>>, path: Seq<u16>)
    ensures
        drop_list_units(Seq::empty()) == seq![0u16],
        drop_list_units(paths).len() > 0,
        drop_list_units(paths).last() == 0,
        drop_list_units(paths.push(path)).len() == drop_list_units(paths).len() + path.len() + 1,
        forall|i: int|
            0 <= i < drop_list_units(paths).len() - 1 ==> #[trigger] drop_list_units(
                paths.push(path),
            )[i] == drop_list_units(paths)[i],
        forall|i: int|
            0 <= i < path.len() ==> drop_list_units(paths.push(path))[drop_list_units(paths).len()
                - 1 + i] == #[trigger] path[i],
        drop_list_units(paths.push(path))[drop_list_units(paths).len() - 1 + path.len()] == 0,
{
    assert(terminated(Seq::<Seq<u16>>::empty()) =~= Seq::<u16>::empty());
    assert(drop_list_units(Seq::empty()) =~= seq![0u16]);
    assert(paths.push(path).drop_last() =~= paths);
    assert(terminated(paths.push(path)) == terminated(paths) + path.push(0));
}

/// A block of dropped files tells a drop target at offset 0 that the list begins after the 20
/// bytes of the header, and at offset 16 that it is wide; the point between them is zero, and the
/// list follows, two bytes a unit, with nothing after it.
pub proof fn law_drop_files_layout(buffer: Seq<u16>)
    ensures
        ({
            let block = drop_files_block(buffer);
            &&& block.len() == 20 + 2 * buffer.len()
            &&& block[0] == 20 && block[1] == 0 && block[2] == 0 && block[3] == 0
            &&& forall|at: int| 4 <= at < 16 ==> #[trigger] block[at] == 0
            &&& block[16] == 1 && block[17] == 0 && block[18] == 0 && block[19] == 0
            &&& forall|i: int|
                0 <= i < buffer.len() ==> block[20 + 2 * i] + 256 * block[20 + 2 * i + 1]
                    == #[trigger] buffer[i]
        }),
{
    let block = drop_files_block(buffer);
    lemma_unit_bytes_len(buffer);
    assert forall|i: int| 0 <= i < buffer.len() implies block[20 + 2 * i] + 256 * block[20 + 2 * i
        + 1] == #[trigger] buffer[i] by {
        lemma_unit_bytes_index(buffer, i);
        assert(block[20 + 2 * i] == unit_bytes(buffer)[2 * i]);
        assert(block[20 + 2 * i + 1] == unit_bytes(buffer)[2 * i + 1]);
    }
}

/// A file descriptor has 592 bytes: the flag of wide names, which is the highest bit of the first
/// four, 68 zeros, and at offset 72 the name, all of it, with zeros up to the end.
pub proof fn law_file_descriptor_layout(name: Seq<u16>)
    requires
        name.len() <= 258,
    ensures
        ({
            let one = file_descriptor(name);
            &&& one.len() == 592
            &&& one[0] == 0 && one[1] == 0 && one[2] == 0 && one[3] == 0x80
            &&& forall|at: int| 4 <= at < 72 ==> #[trigger] one[at] == 0
            &&& forall|i: int|
                0 <= i < name.len() ==> one[72 + 2 * i] + 256 * one[72 + 2 * i + 1]
                    == #[trigger] name[i]
            &&& forall|at: int| 72 + 2 * name.len() <= at < 592 ==> #[trigger] one[at] == 0
        }),
{
    let one = file_descriptor(name);
    let ended = name.push(0).push(0);
    let field = unit_bytes(ended);
    law_names_fit(name);
    lemma_file_descriptor_len(name);
    lemma_unit_bytes_len(ended);
    assert forall|at: int| 0 <= at < field.len() implies #[trigger] one[72 + at] == field[at] by {}
    assert forall|i: int| 0 <= i < name.len() implies one[72 + 2 * i] + 256 * one[72 + 2 * i + 1]
        == #[trigger] name[i] by {
        lemma_unit_bytes_index(ended, i);
        assert(ended[i] == name[i]);
        assert(one[72 + 2 * i] == field[2 * i]);
        assert(one[72 + (2 * i + 1)] == field[2 * i + 1]);
    }
    assert forall|at: int| 72 + 2 * name.len() <= at < 592 implies #[trigger] one[at] == 0 by {
        if at < 72 + field.len() {
            let unit = (at - 72) / 2;
            lemma_unit_bytes_index(ended, unit);
            assert(ended[unit] == 0);
            assert(one[72 + (at - 72)] == field[at - 72]);
        }
    }
}

/// A block of file descriptors has the number of files in its first four bytes and the
/// descriptor of each file at its place, with nothing after the last.
pub proof fn law_file_group_layout(names: Seq<Seq<u16>>, i: int, at: int)
    requires
        0 <= i < names.len(),
        forall|j: int| 0 <= j < names.len() ==> #[trigger] names[j].len() <= 258,
        0 <= at < 592,
    ensures
        file_group_block(names).len() == 4 + 592 * names.len(),
        names.len() <= u32::MAX ==> file_group_block(names)[0] + 256 * file_group_block(names)[1]
            + 65536 * file_group_block(names)[2] + 16777216 * file_group_block(names)[3]
            == names.len(),
        file_group_block(names)[4 + 592 * i + at] == file_descriptor(names[i])[at],
{
    assert forall|j: int| 0 <= j < names.len() implies name_fits(#[trigger] names[j]) by {
        law_names_fit(names[j]);
    }
    lemma_file_descriptors_len(names);
    lemma_file_descriptor_at(names, i);
    law_four_bytes_make_the_number(names.len() as u32);
    let all = crate::memory::file_descriptors(names);
    assert(file_group_block(names)[4 + 592 * i + at] == all[592 * i + at]);
    assert(all.subrange(592 * i, 592 * i + 592)[at] == all[592 * i + at]);
}

/// A name of up to 258 units fits its field, and no longer one does.
pub proof fn law_names_fit(name: Seq<u16>)
    ensures
        name_fits(name) <==> name.len() <= 258,
{
}

} // verus!
