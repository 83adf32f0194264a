//! Drag and drop out of a Win32 window: the data object and drop source that OLE talks to, the
//! memory images that a drop target reads, and the course of one drag.

pub mod bytes;
pub mod codes;
pub mod data_laws;
pub mod data_object;
pub mod drag_image;
pub mod drop_source;
pub mod memory;
pub mod memory_laws;
pub mod ole;
pub mod session;
pub mod session_laws;
pub mod step_laws;
pub mod wide;
mod win32;
