//! The blocks of global memory that a drop target is handed: a list of dropped files, and the
//! descriptors of virtual files.

use vstd::prelude::*;

use crate::bytes::{
    le32, lemma_u32_read_back, lemma_unit_bytes_len, lemma_units_read_back, push_u32, push_units,
    push_zeros, u32_at, unit_bytes, units_at, zeros,
};
use crate::codes::{FD_UNICODE, FILE_NAME_UNITS};
use crate::wide::{
    drop_list_units, lemma_string_read_back, nul_free, string_at, strings, strings_from,
    terminated, wide_string,
};
use crate::win32::{drop_files_size, file_descriptor_size};

verus! {

/// The flag that tells a reader that the names are wide strings, as the block holds it.
pub open spec fn unicode_flag() -> u32 {
    0x8000_0000
}

/// A block of dropped files: a header of 20 bytes with the offset of the list (its own size) in
/// front and the mark of wide strings at its end, then the list. The other fields of the header,
/// the point of the drop and whether it lies outside the client area, are zero.
pub open spec fn drop_files_block(buffer: Seq<u16>) -> Seq<u8> {
    le32(20) + zeros(12) + le32(1) + unit_bytes(buffer)
}

/// The descriptor of one virtual file: the flags, 68 bytes of fields that the flags declare
/// unused, and the name, ended by two zeros, in a field of 520 bytes.
pub open spec fn file_descriptor(name: Seq<u16>) -> Seq<u8> {
    le32(unicode_flag()) + zeros(68) + unit_bytes(name.push(0).push(0)) + zeros(
        (520 - 2 * (name.len() + 2)) as nat,
    )
}

/// The descriptors of some virtual files, one after the other.
pub open spec fn file_descriptors(names: Seq<Seq<u16>>) -> Seq<u8>
    decreases names.len(),
{
    if names.len() == 0 {
        Seq::empty()
    } else {
        file_descriptors(names.drop_last()) + file_descriptor(names.last())
    }
}

/// A block of file descriptors: how many there are, as a 32-bit number, and the descriptors.
pub open spec fn file_group_block(names: Seq<Seq<u16>>) -> Seq<u8> {
    le32(names.len() as u32) + file_descriptors(names)
}

/// Whether the name of a virtual file, with the two zeros that end it, fits its field.
pub open spec fn name_fits(name: Seq<u16>) -> bool {
    name.len() + 2 <= FILE_NAME_UNITS
}

/// The paths that a drop target reads of a block of dropped files: the header leads it to the
/// list, which takes up the rest of the block.
pub open spec fn dropped_paths(block: Seq<u8>) -> Seq<Seq<u16>> {
    let list = u32_at(block, 0);
    strings_from(units_at(block, list, ((block.len() - list) / 2) as nat), 0)
}

/// Whether a drop target takes the paths of a block of dropped files for wide strings.
pub open spec fn paths_are_wide(block: Seq<u8>) -> bool {
    u32_at(block, 16) != 0
}

/// The number of files that a drop target reads of a block of file descriptors.
pub open spec fn described_files(block: Seq<u8>) -> int {
    u32_at(block, 0)
}

/// The flags that a drop target reads of a file descriptor.
pub open spec fn described_flags(block: Seq<u8>, i: int) -> int {
    u32_at(block, 4 + 592 * i)
}

/// The name that a drop target reads of a file descriptor.
pub open spec fn described_name(block: Seq<u8>, i: int) -> Seq<u16> {
    string_at(units_at(block, 4 + 592 * i + 72, FILE_NAME_UNITS as nat), 0)
}

/// Fills the block of dropped files with a drop list.
pub fn get_hglobal(buffer: &Vec<u16>) -> (block: Vec<u8>)
    ensures
        block@ == drop_files_block(buffer@),
        block@.len() == 20 + 2 * buffer@.len(),
{
    let header: usize = drop_files_size();
    let mut block: Vec<u8> = Vec::new();
    push_u32(&mut block, header as u32);
    push_zeros(&mut block, header - 8);
    push_u32(&mut block, 1);
    push_units(&mut block, buffer);
    proof {
        lemma_unit_bytes_len(buffer@);
    }
    block
}

/// Appends the descriptor of a virtual file.
pub fn push_file_descriptor(block: &mut Vec<u8>, name: &Vec<u16>)
    requires
        name_fits(name@),
    ensures
        final(block)@ == old(block)@ + file_descriptor(name@),
{
    let size: usize = file_descriptor_size();
    let field: usize = 2 * FILE_NAME_UNITS;
    let mut buffer = wide_string(name.clone());
    buffer.push(0);
    push_u32(block, #[verifier::truncate] (FD_UNICODE as u32));
    assert(FD_UNICODE as u32 == 0x8000_0000u32) by (bit_vector);
    push_zeros(block, size - field - 4);
    push_units(block, &buffer);
    push_zeros(block, field - 2 * buffer.len());
    assert(block@ =~= old(block)@ + file_descriptor(name@));
}

/// Fills the block of file descriptors. There must be a file: the first descriptor is part of the
/// header, and each further one adds 592 bytes to its 596.
pub fn file_group(names: &Vec<Vec<u16>>) -> (block: Vec<u8>)
    requires
        names@.len() > 0,
        forall|i: int| 0 <= i < names@.len() ==> name_fits(#[trigger] names@[i]@),
    ensures
        block@ == file_group_block(strings(names@)),
        block@.len() == 596 + 592 * (names@.len() - 1),
{
    let mut block: Vec<u8> = Vec::new();
    push_u32(&mut block, #[verifier::truncate] (names.len() as u32));
    let mut i: usize = 0;
    while i < names.len()
        invariant
            i <= names.len(),
            forall|i: int| 0 <= i < names@.len() ==> name_fits(#[trigger] names@[i]@),
            block@ == le32(names@.len() as u32) + file_descriptors(strings(names@).take(i as int)),
        decreases names.len() - i,
    {
        push_file_descriptor(&mut block, &names[i]);
        assert(strings(names@).take(i + 1).drop_last() =~= strings(names@).take(i as int));
        i = i + 1;
    }
    assert(strings(names@).take(i as int) =~= strings(names@));
    proof {
        lemma_file_descriptors_len(strings(names@));
    }
    block
}

/// A descriptor takes 592 bytes, whatever the name.
pub proof fn lemma_file_descriptor_len(name: Seq<u16>)
    requires
        name_fits(name),
    ensures
        file_descriptor(name).len() == 592,
{
    lemma_unit_bytes_len(name.push(0).push(0));
}

/// Descriptors take 592 bytes each.
pub proof fn lemma_file_descriptors_len(names: Seq<Seq<u16>>)
    requires
        forall|i: int| 0 <= i < names.len() ==> name_fits(#[trigger] names[i]),
    ensures
        file_descriptors(names).len() == 592 * names.len(),
    decreases names.len(),
{
    if names.len() > 0 {
        lemma_file_descriptor_len(names.last());
        lemma_file_descriptors_len(names.drop_last());
    }
}

/// Each descriptor stands at its index times 592.
pub proof fn lemma_file_descriptor_at(names: Seq<Seq<u16>>, i: int)
    requires
        0 <= i < names.len(),
        forall|j: int| 0 <= j < names.len() ==> name_fits(#[trigger] names[j]),
    ensures
        592 * i + 592 <= file_descriptors(names).len(),
        file_descriptors(names).subrange(592 * i, 592 * i + 592) == file_descriptor(names[i]),
    decreases names.len(),
{
    let front = file_descriptors(names.drop_last());
    lemma_file_descriptors_len(names);
    lemma_file_descriptors_len(names.drop_last());
    lemma_file_descriptor_len(names.last());
    if i < names.len() - 1 {
        lemma_file_descriptor_at(names.drop_last(), i);
        assert(file_descriptors(names).subrange(592 * i, 592 * i + 592) =~= front.subrange(
            592 * i,
            592 * i + 592,
        ));
    } else {
        assert(file_descriptors(names).subrange(592 * i, 592 * i + 592) =~= file_descriptor(
            names[i],
        ));
    }
}

/// A reader of terminated strings that follow `front`, and of the zero that ends their list,
/// finds the strings.
proof fn lemma_strings_read_back(front: Seq<u16>, list: Seq<Seq<u16>>)
    requires
        forall|i: int| 0 <= i < list.len() ==> #[trigger] list[i].len() > 0 && nul_free(list[i]),
    ensures
        strings_from(front + terminated(list).push(0), front.len() as int) == list,
    decreases list.len(),
{
    let units = front + terminated(list).push(0);
    let at = front.len() as int;
    if list.len() == 0 {
        assert(units[at] == 0);
        assert(strings_from(units, at) =~= list);
    } else {
        let head = list[0];
        let rest = list.drop_first();
        lemma_terminated_first(list);
        assert(head.len() > 0 && nul_free(head));
        assert(units.subrange(at, at + head.len()) =~= head);
        assert(units[at + head.len()] == 0);
        lemma_string_read_back(units, at, head);
        assert forall|i: int| 0 <= i < rest.len() implies #[trigger] rest[i].len() > 0 && nul_free(
            rest[i],
        ) by {
            assert(rest[i] == list[i + 1]);
        }
        lemma_strings_read_back(front + head.push(0), rest);
        assert(front + head.push(0) + terminated(rest).push(0) =~= units);
        assert(list =~= seq![head] + rest);
    }
}

/// The terminated strings of a list start with the first one.
proof fn lemma_terminated_first(list: Seq<Seq<u16>>)
    requires
        list.len() > 0,
    ensures
        terminated(list) == list[0].push(0) + terminated(list.drop_first()),
    decreases list.len(),
{
    if list.len() == 1 {
        assert(terminated(list.drop_last()) =~= Seq::<u16>::empty());
        assert(terminated(list.drop_first()) =~= Seq::<u16>::empty());
    } else {
        lemma_terminated_first(list.drop_last());
        assert(list.drop_last().drop_first() =~= list.drop_first().drop_last());
        assert(terminated(list) =~= list[0].push(0) + terminated(list.drop_first()));
    }
}

/// What a drop target reads of a block of dropped files is what was written: the header leads it
/// to the list and tells it that the strings are wide, and in the list it finds the paths, all of
/// them and in their order. A path that is empty or holds a zero would end the list or be cut.
pub proof fn law_drop_files_read_back(paths: Seq<Seq<u16>>)
    requires
        forall|i: int| 0 <= i < paths.len() ==> #[trigger] paths[i].len() > 0 && nul_free(paths[i]),
    ensures
        paths_are_wide(drop_files_block(drop_list_units(paths))),
        dropped_paths(drop_files_block(drop_list_units(paths))) == paths,
{
    let units = drop_list_units(paths);
    let block = drop_files_block(units);
    lemma_unit_bytes_len(units);
    assert(block.subrange(0, 4) =~= le32(20));
    lemma_u32_read_back(block, 0, 20);
    assert(block.subrange(16, 20) =~= le32(1));
    lemma_u32_read_back(block, 16, 1);
    assert(block.subrange(20, 20 + 2 * units.len() as int) =~= unit_bytes(units));
    lemma_units_read_back(block, 20, units);
    lemma_strings_read_back(Seq::empty(), paths);
    assert(Seq::<u16>::empty() + terminated(paths).push(0) =~= units);
}

/// What a drop target reads of a block of file descriptors is what was written: the number of
/// files, and of each file the flags and the name. A name that holds a zero would be cut there.
pub proof fn law_file_group_read_back(names: Seq<Seq<u16>>, i: int)
    requires
        0 <= i < names.len() <= u32::MAX,
        forall|j: int| 0 <= j < names.len() ==> name_fits(#[trigger] names[j]),
        nul_free(names[i]),
    ensures
        described_files(file_group_block(names)) == names.len(),
        described_flags(file_group_block(names), i) == unicode_flag(),
        described_name(file_group_block(names), i) == names[i],
{
    let block = file_group_block(names);
    let descriptor = 4 + 592 * i;
    let name = names[i];
    let ended = name.push(0).push(0);
    let one = file_descriptor(name);
    lemma_file_descriptor_at(names, i);
    lemma_file_descriptor_len(name);
    lemma_unit_bytes_len(ended);
    assert(block.subrange(0, 4) =~= le32(names.len() as u32));
    lemma_u32_read_back(block, 0, names.len() as u32);
    assert(block.subrange(descriptor, descriptor + 592) =~= one);
    assert(block.subrange(descriptor, descriptor + 4) =~= one.subrange(0, 4));
    assert(one.subrange(0, 4) =~= le32(unicode_flag()));
    lemma_u32_read_back(block, descriptor, unicode_flag());
    let at = descriptor + 72;
    let size = 2 * ended.len() as int;
    assert(block.subrange(at, at + size) =~= one.subrange(72, 72 + size));
    assert(one.subrange(72, 72 + size) =~= unit_bytes(ended));
    lemma_units_read_back(block, at, ended);
    let field = units_at(block, at, FILE_NAME_UNITS as nat);
    assert(field.take(ended.len() as int) =~= ended);
    assert(field.subrange(0, name.len() as int) =~= name) by {
        assert(field.subrange(0, name.len() as int) =~= ended.subrange(0, name.len() as int));
    }
    assert(field[name.len() as int] == ended[name.len() as int]);
    lemma_string_read_back(field, 0, name);
}

} // verus!
