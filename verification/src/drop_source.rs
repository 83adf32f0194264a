//! The source of a drag: when OLE asks, it says whether the drag goes on.

use vstd::prelude::*;

use crate::codes::{
    DRAGDROP_S_CANCEL, DRAGDROP_S_DROP, DRAGDROP_S_USEDEFAULTCURSORS, MK_LBUTTON, S_OK,
};
use crate::win32::{as_bool, common_keys};

verus! {

/// Whether the left mouse button is among the pressed keys: the lowest bit stands for it.
pub open spec fn left_button_down(key_state: u32) -> bool {
    key_state % 2 == 1
}

/// The left button has the lowest bit of the key state to itself: whether it is down does not
/// depend on any other key.
pub proof fn law_left_button_is_the_lowest_bit(key_state: u32)
    ensures
        left_button_down(key_state) <==> key_state & 1 != 0,
{
    assert((key_state & 1 != 0) == (key_state % 2 == 1)) by (bit_vector);
}

/// The drop source of a drag. It has no state.
pub struct DropSource;

impl DropSource {
    pub fn new() -> (source: Self)
        ensures
            source == DropSource,
    {
        DropSource
    }

    /// Decides whether the drag goes on. Escape cancels it, whatever the mouse does; otherwise
    /// the release of the left button drops the item, and until then the drag continues.
    pub fn query_continue_drag(&self, escape_pressed: i32, key_state: u32) -> (status: i32)
        ensures
            escape_pressed != 0 ==> status == DRAGDROP_S_CANCEL,
            escape_pressed == 0 && !left_button_down(key_state) ==> status == DRAGDROP_S_DROP,
            escape_pressed == 0 && left_button_down(key_state) ==> status == S_OK,
    {
        assert(key_state & 1 == key_state % 2) by (bit_vector);
        if as_bool(escape_pressed) {
            DRAGDROP_S_CANCEL
        } else if common_keys(key_state, MK_LBUTTON) == 0 {
            DRAGDROP_S_DROP
        } else {
            S_OK
        }
    }

    /// Leaves the cursor to OLE, whatever the effect of a drop would be.
    pub fn give_feedback(&self, _effect: u32) -> (status: i32)
        ensures
            status == DRAGDROP_S_USEDEFAULTCURSORS,
    {
        DRAGDROP_S_USEDEFAULTCURSORS
    }
}

} // verus!
