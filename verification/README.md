# drag

Drag and drop of files and data out of a Win32 window, with its rules verified by Verus.

- `src/` is the verified library. `data_object` answers a drop target's requests, `memory`, `wide`
  and `bytes` lay out the blocks of memory it reads, `drop_source` decides when a drag ends,
  `session` is the course of one drag and `session_laws` what holds of every one, `drag_image` is
  the image under the cursor, and `ole` the one initialization of OLE. `win32` holds what the
  library asks of the `windows` crate.
- `tests/` runs the library, and compares its numbers and sizes with those of the `windows` crate.
- `app/` makes the system calls: it wraps the library in COM objects and carries out, step by step,
  what `session` says.
