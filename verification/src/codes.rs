//! The numbers of the Win32 and OLE interfaces that the library speaks in.

use vstd::prelude::*;

verus! {

/// The call succeeded.
pub const S_OK: i32 = 0;

/// The drop took place.
pub const DRAGDROP_S_DROP: i32 = 262400;

/// The drag was cancelled.
pub const DRAGDROP_S_CANCEL: i32 = 262401;

/// OLE draws its own cursors during the drag.
pub const DRAGDROP_S_USEDEFAULTCURSORS: i32 = 262402;

/// The requested format is not offered.
pub const DV_E_FORMATETC: i32 = -2147221404;

/// The method is not implemented.
pub const E_NOTIMPL: i32 = -2147467263;

/// The data object does not notify anybody of changes.
pub const OLE_E_ADVISENOTSUPPORTED: i32 = -2147221501;

/// The clipboard format of a list of dropped files.
pub const CF_HDROP: u16 = 15;

/// The aspect under which an item is shown in full.
pub const DVASPECT_CONTENT: u32 = 1;

/// The medium is a block of global memory.
pub const TYMED_HGLOBAL: i32 = 1;

/// The file names of a group descriptor are wide strings.
pub const FD_UNICODE: i32 = -2147483648;

/// The dragged item is copied.
pub const DROPEFFECT_COPY: u32 = 1;

/// The dragged item is moved.
pub const DROPEFFECT_MOVE: u32 = 2;

/// The left mouse button is down.
pub const MK_LBUTTON: u32 = 1;

/// The number of code units that the name of a file descriptor has room for.
pub const FILE_NAME_UNITS: usize = 260;

} // verus!
