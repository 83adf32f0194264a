//! What the library asks of the `windows` crate.

use vstd::prelude::*;
use windows::Win32::Foundation::BOOL;
use windows::Win32::System::SystemServices::MODIFIERKEYS_FLAGS;
use windows::Win32::UI::Shell::{DROPFILES, FILEDESCRIPTORW};

verus! {

/// Calls `BOOL::as_bool`, which holds of every value but zero.
#[verifier::external_body]
pub(crate) fn as_bool(raw: i32) -> (set: bool)
    ensures
        set == (raw != 0),
{
    BOOL(raw).as_bool()
}

/// Calls the `&` of `MODIFIERKEYS_FLAGS`, which is the bitwise `&` of the two numbers.
#[verifier::external_body]
pub(crate) fn common_keys(left: u32, right: u32) -> (both: u32)
    ensures
        both == left & right,
{
    (MODIFIERKEYS_FLAGS(left) & MODIFIERKEYS_FLAGS(right)).0
}

/// Calls `size_of` for `DROPFILES`, a packed struct of an offset (4 bytes), a point (8) and two
/// `BOOL`s (4 each).
#[verifier::external_body]
pub(crate) fn drop_files_size() -> (size: usize)
    ensures
        size == 20,
{
    core::mem::size_of::<DROPFILES>()
}

/// Calls `size_of` for `FILEDESCRIPTORW`, a packed struct whose file name of 260 code units (520
/// bytes) follows 72 bytes of other fields.
#[verifier::external_body]
pub(crate) fn file_descriptor_size() -> (size: usize)
    ensures
        size == 592,
{
    core::mem::size_of::<FILEDESCRIPTORW>()
}

} // verus!
