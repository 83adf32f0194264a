use std::mem::size_of;

use drag::bytes::{push_u16, push_u32, push_units, push_zeros};
use drag::memory::{file_group, get_hglobal, push_file_descriptor};
use drag::wide::{drop_list, wide_string};
use windows::Win32::UI::Shell::{DROPFILES, FILEDESCRIPTORW, FILEGROUPDESCRIPTORW};

fn units(string: &str) -> Vec<u16> {
    string.encode_utf16().collect()
}

fn u32_at(block: &[u8], at: usize) -> u32 {
    u32::from_le_bytes([block[at], block[at + 1], block[at + 2], block[at + 3]])
}

fn units_from(block: &[u8]) -> Vec<u16> {
    block.chunks(2).map(|pair| u16::from_le_bytes([pair[0], pair[1]])).collect()
}

#[test]
fn numbers_are_little_endian() {
    let mut block = Vec::new();
    push_u16(&mut block, 0x1234);
    push_u32(&mut block, 0x89ab_cdef);
    push_zeros(&mut block, 2);
    push_units(&mut block, &vec![0xffff, 0x0100]);
    assert_eq!(block, vec![0x34, 0x12, 0xef, 0xcd, 0xab, 0x89, 0, 0, 0xff, 0xff, 0x00, 0x01]);
}

#[test]
fn wide_strings_end_with_a_zero() {
    assert_eq!(wide_string(units("ab")), vec![97, 98, 0]);
    assert_eq!(wide_string(Vec::new()), vec![0]);
}

#[test]
fn drop_lists_end_with_two_zeros() {
    assert_eq!(drop_list(&vec![units("a"), units("bc")]), vec![97, 0, 98, 99, 0, 0]);
    assert_eq!(drop_list(&Vec::new()), vec![0]);
}

#[test]
fn dropped_files_follow_their_header() {
    let block = get_hglobal(&vec![97, 0, 0]);
    let header = size_of::<DROPFILES>();
    assert_eq!(header, 20);
    assert_eq!(block.len(), header + 6);
    assert_eq!(u32_at(&block, 0) as usize, header);
    assert_eq!(&block[4..16], &[0; 12]);
    assert_eq!(u32_at(&block, 16), 1);
    assert_eq!(&block[header..], &[97, 0, 0, 0, 0, 0]);
}

#[test]
fn dropped_paths_are_read_back() {
    let paths = vec![units("C:\\a.txt"), units("D:\\dir\\\u{1F980}")];
    let block = get_hglobal(&drop_list(&paths));
    let list = units_from(&block[u32_at(&block, 0) as usize..]);
    let mut read: Vec<Vec<u16>> = list.split(|unit| *unit == 0).map(|s| s.to_vec()).collect();
    // What follows the two zeros at the end.
    assert_eq!(read.pop(), Some(vec![]));
    assert_eq!(read.pop(), Some(vec![]));
    assert_eq!(read, paths);
}

#[test]
fn a_path_with_a_zero_is_cut() {
    let list = drop_list(&vec![vec![97, 0, 98]]);
    assert_eq!(list, vec![97, 0, 98, 0, 0]);
}

#[test]
fn descriptors_have_the_size_of_the_system() {
    let mut block = Vec::new();
    push_file_descriptor(&mut block, &units("a"));
    assert_eq!(block.len(), size_of::<FILEDESCRIPTORW>());
    assert_eq!(block.len(), 592);
    assert_eq!(u32_at(&block, 0), 0x8000_0000);
    assert_eq!(&block[4..72], &[0; 68]);
    assert_eq!(&block[72..78], &[97, 0, 0, 0, 0, 0]);
    assert_eq!(&block[78..], &[0; 514]);
}

#[test]
fn file_groups_hold_every_name() {
    let names = vec![units("C:\\one"), units("C:\\two"), vec![0x1234; 258]];
    let block = file_group(&names);
    assert_eq!(
        block.len(),
        size_of::<FILEGROUPDESCRIPTORW>() + 2 * size_of::<FILEDESCRIPTORW>()
    );
    assert_eq!(u32_at(&block, 0), 3);
    for (i, name) in names.iter().enumerate() {
        let at = 4 + 592 * i;
        assert_eq!(u32_at(&block, at), 0x8000_0000);
        let field = units_from(&block[at + 72..at + 592]);
        assert_eq!(field.len(), 260);
        assert_eq!(field.split(|unit| *unit == 0).next(), Some(name.as_slice()));
        assert_eq!(&field[name.len()..name.len() + 2], &[0, 0]);
    }
}
