use drag::codes;
use windows::Win32::Foundation;
use windows::Win32::System::Com::{DVASPECT_CONTENT, TYMED_HGLOBAL};
use windows::Win32::System::Ole::{CF_HDROP, DROPEFFECT_COPY, DROPEFFECT_MOVE};
use windows::Win32::System::SystemServices::MK_LBUTTON;
use windows::Win32::UI::Shell::{FD_UNICODE, FILEDESCRIPTORW};

#[test]
fn statuses_are_those_of_the_system() {
    assert_eq!(codes::S_OK, Foundation::S_OK.0);
    assert_eq!(codes::DRAGDROP_S_DROP, Foundation::DRAGDROP_S_DROP.0);
    assert_eq!(codes::DRAGDROP_S_CANCEL, Foundation::DRAGDROP_S_CANCEL.0);
    assert_eq!(
        codes::DRAGDROP_S_USEDEFAULTCURSORS,
        Foundation::DRAGDROP_S_USEDEFAULTCURSORS.0
    );
    assert_eq!(codes::DV_E_FORMATETC, Foundation::DV_E_FORMATETC.0);
    assert_eq!(codes::E_NOTIMPL, Foundation::E_NOTIMPL.0);
    assert_eq!(codes::OLE_E_ADVISENOTSUPPORTED, Foundation::OLE_E_ADVISENOTSUPPORTED.0);
}

#[test]
fn formats_and_flags_are_those_of_the_system() {
    assert_eq!(codes::CF_HDROP, CF_HDROP.0);
    assert_eq!(codes::DVASPECT_CONTENT, DVASPECT_CONTENT.0);
    assert_eq!(codes::TYMED_HGLOBAL, TYMED_HGLOBAL.0);
    assert_eq!(codes::FD_UNICODE, FD_UNICODE.0);
    assert_eq!(codes::DROPEFFECT_COPY, DROPEFFECT_COPY.0);
    assert_eq!(codes::DROPEFFECT_MOVE, DROPEFFECT_MOVE.0);
    assert_eq!(codes::MK_LBUTTON, MK_LBUTTON.0);
}

#[test]
fn file_names_have_the_room_of_a_descriptor() {
    let descriptor = FILEDESCRIPTORW::default();
    let name = descriptor.cFileName;
    assert_eq!(codes::FILE_NAME_UNITS, name.len());
}
