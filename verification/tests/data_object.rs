use std::cell::RefCell;

use drag::codes::{
    CF_HDROP, DVASPECT_CONTENT, DV_E_FORMATETC, E_NOTIMPL, OLE_E_ADVISENOTSUPPORTED, S_OK,
};
use drag::data_object::{
    content_reply, hdrop_data, DataObject, DataReply, DragItem, FormatEtc, QueryReply, Request,
};
use drag::memory::{file_group, get_hglobal};
use drag::wide::drop_list;

type Provider = fn(&str) -> Option<Vec<u8>>;

const CONTENTS: u16 = 0xc001;
const DESCRIPTOR: u16 = 0xc002;

fn provide(name: &str) -> Option<Vec<u8>> {
    match name {
        "two" => Some(vec![1, 2, 3]),
        "empty" => Some(vec![]),
        _ => None,
    }
}

fn files(names: &[&'static str]) -> DataObject<&'static str, Provider> {
    DataObject::new(DragItem::Files(names.to_vec()), 0xc001, 0xc002)
}

fn data(names: &[&str]) -> DataObject<&'static str, Provider> {
    let types = names.iter().map(|name| name.to_string()).collect();
    DataObject::new(DragItem::Data { provider: provide, types }, 0xc001, 0xc002)
}

fn format(cf_format: u16) -> FormatEtc {
    FormatEtc { cf_format, ptd: 0, aspect: DVASPECT_CONTENT, lindex: 0, tymed: 1 }
}

fn absolute(path: &str) -> Vec<u16> {
    format!("C:\\{}", path).encode_utf16().collect()
}

fn get(object: &DataObject<&'static str, Provider>, format: Option<FormatEtc>) -> Option<Vec<u8>> {
    let reply = object.get_data(format, &|file: &&'static str| absolute(file), &|name: &String| {
        absolute(name)
    });
    match reply {
        DataReply::Medium(medium) => {
            assert_eq!(medium.tymed, 1);
            Some(medium.data)
        }
        DataReply::Shell => None,
    }
}

#[test]
fn formats_keep_their_lower_half() {
    let object: DataObject<&str, Provider> =
        DataObject::new(DragItem::Files(vec![]), 0x7_c123, 0xffff_ffff);
    assert_eq!(object.content_format, 0xc123);
    assert_eq!(object.descriptor_format, 0xffff);
}

#[test]
fn global_content_is_a_bit_and_an_aspect() {
    type Object = DataObject<u8, Provider>;
    assert!(Object::is_global_content(Some(format(1))));
    assert!(Object::is_global_content(Some(FormatEtc { tymed: 0xffff_ffff, ..format(1) })));
    assert!(Object::is_global_content(Some(FormatEtc { tymed: 5, ..format(1) })));
    assert!(!Object::is_global_content(Some(FormatEtc { tymed: 4, ..format(1) })));
    assert!(!Object::is_global_content(Some(FormatEtc { tymed: 0x8000_0000, ..format(1) })));
    assert!(!Object::is_global_content(Some(FormatEtc { aspect: 2, ..format(1) })));
    assert!(!Object::is_global_content(None));
}

#[test]
fn files_answer_for_a_drop_list_alone() {
    let object = files(&["a"]);
    assert_eq!(object.query_get_data(Some(format(CF_HDROP))), QueryReply::Status(S_OK));
    assert_eq!(object.query_get_data(Some(format(CONTENTS))), QueryReply::Shell);
    assert_eq!(object.query_get_data(Some(format(DESCRIPTOR))), QueryReply::Shell);
    assert_eq!(object.query_get_data(None), QueryReply::Shell);
    let istream = FormatEtc { tymed: 4, ..format(CF_HDROP) };
    assert_eq!(object.query_get_data(Some(istream)), QueryReply::Shell);
    assert_eq!(get(&object, Some(format(CONTENTS))), None);
    assert_eq!(get(&object, Some(istream)), None);
    assert_eq!(get(&object, None), None);
}

#[test]
fn data_answers_for_contents_and_descriptors() {
    let object = data(&["one", "two"]);
    assert_eq!(object.query_get_data(Some(format(CONTENTS))), QueryReply::Status(S_OK));
    assert_eq!(object.query_get_data(Some(format(DESCRIPTOR))), QueryReply::Status(S_OK));
    assert_eq!(object.query_get_data(Some(format(CF_HDROP))), QueryReply::Shell);
    assert_eq!(get(&object, Some(format(CF_HDROP))), None);
}

#[test]
fn one_number_for_both_formats_means_contents() {
    let types = vec!["two".to_string()];
    let object: DataObject<&'static str, Provider> =
        DataObject::new(DragItem::Data { provider: provide, types }, 7, 7);
    assert_eq!(object.request(Some(format(7))), Request::Contents);
    assert_eq!(get(&object, Some(format(7))), Some(vec![1, 2, 3]));
}

#[test]
fn what_is_offered_is_answered() {
    let object = files(&["a"]);
    let offers = object.enum_format_etc(1);
    assert_eq!(offers, vec![format(CF_HDROP)]);
    assert_eq!(object.request(Some(offers[0])), Request::DropFiles);

    let object = data(&["one"]);
    let offers = object.enum_format_etc(2);
    assert_eq!(offers, vec![format(CONTENTS), format(DESCRIPTOR)]);
    assert_eq!(object.request(Some(offers[0])), Request::Contents);
    assert_eq!(object.request(Some(offers[1])), Request::Descriptors);
}

#[test]
fn other_media_part_and_device_do_not_matter() {
    let object = files(&["a"]);
    let asked = FormatEtc { ptd: 9, lindex: -1, tymed: 0xff, ..format(CF_HDROP) };
    assert_eq!(object.request(Some(asked)), Request::DropFiles);
    assert_eq!(get(&object, Some(asked)), get(&object, Some(format(CF_HDROP))));
}

#[test]
fn dragged_files_arrive_with_absolute_paths() {
    let object = files(&["a.txt", "b"]);
    let block = get_hglobal(&drop_list(&vec![absolute("a.txt"), absolute("b")]));
    assert_eq!(get(&object, Some(format(CF_HDROP))), Some(block.clone()));
    assert_eq!(hdrop_data(&vec!["a.txt", "b"], &|file: &&str| absolute(file)), block);
    // The header, "C:\a.txt", "C:\b", a zero after each and one at the end.
    assert_eq!(block.len(), 20 + 2 * (9 + 5 + 1));
}

#[test]
fn no_files_make_an_empty_list() {
    let block = get(&files(&[]), Some(format(CF_HDROP)));
    assert_eq!(block.map(|block| block[20..].to_vec()), Some(vec![0, 0]));
}

#[test]
fn contents_come_from_the_provider() {
    let object = data(&["one", "two", "empty"]);
    let asked = |lindex: i32| Some(FormatEtc { lindex, ..format(CONTENTS) });
    assert_eq!(get(&object, asked(1)), Some(vec![1, 2, 3]));
    assert_eq!(get(&object, asked(2)), Some(vec![]));
    // The provider makes nothing of the first name.
    assert_eq!(get(&object, asked(0)), None);
}

#[test]
fn the_provider_is_asked_once_and_by_name() {
    let asked: RefCell<Vec<String>> = RefCell::new(vec![]);
    let provider = |name: &str| {
        asked.borrow_mut().push(name.to_string());
        Some(vec![7u8])
    };
    let types = vec!["one".to_string(), "two".to_string()];
    let object: DataObject<&'static str, _> =
        DataObject::new(DragItem::Data { provider, types }, 0xc001, 0xc002);
    let format = FormatEtc { lindex: 1, ..format(CONTENTS) };
    let absolute_file = |file: &&'static str| absolute(file);
    let absolute_name = |name: &String| absolute(name);
    let reply = object.get_data(Some(format), &absolute_file, &absolute_name);
    assert!(matches!(reply, DataReply::Medium(medium) if medium.data == [7]));
    assert_eq!(*asked.borrow(), vec!["two".to_string()]);
}

#[test]
fn replies_pass_on_what_the_provider_made() {
    assert!(matches!(content_reply(None), DataReply::Shell));
    let reply = content_reply(Some(vec![4, 5]));
    assert!(matches!(reply, DataReply::Medium(medium) if medium.tymed == 1 && medium.data == [4, 5]));
}

#[test]
fn virtual_files_are_described_by_absolute_paths() {
    let object = data(&["one", "two"]);
    let block = file_group(&vec![absolute("one"), absolute("two")]);
    assert_eq!(get(&object, Some(format(DESCRIPTOR))), Some(block));
}

#[test]
fn what_is_not_supported_is_refused() {
    let object = files(&["a"]);
    assert_eq!(object.get_data_here(Some(format(CF_HDROP))), Err(DV_E_FORMATETC));
    assert_eq!(object.d_advise(Some(format(CF_HDROP)), 0), Err(OLE_E_ADVISENOTSUPPORTED));
    assert_eq!(object.d_unadvise(3), Err(OLE_E_ADVISENOTSUPPORTED));
    assert_eq!(object.enum_d_advise(), Err(OLE_E_ADVISENOTSUPPORTED));
}

#[test]
fn canonical_formats_name_no_device() {
    let object = files(&["a"]);
    let mut out = FormatEtc { cf_format: 1, ptd: 2, aspect: 3, lindex: 4, tymed: 5 };
    assert_eq!(object.get_canonical_format_etc(None, &mut out), E_NOTIMPL);
    assert_eq!(out, FormatEtc { cf_format: 1, ptd: 0, aspect: 3, lindex: 4, tymed: 5 });
}
