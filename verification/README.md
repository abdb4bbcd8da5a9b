# clickcapture

A screen capture tool for Windows. The user selects an area of the screen by dragging;
in capture mode every left click (or an automatic clicker, at a fixed interval and up
to a set count) saves that area as the next numbered JPEG file (`0001.jpg`, ...). The
saved pictures can then be bound, in name order, into numbered PDF files (`0001.pdf`,
...) of bounded size.

## Layout

- `src/` is the library, verified with Verus. It holds the application state and every
  decision taken on a dialog command, a mouse or keyboard event or the end of a click
  run (each handler returns the side effects to carry out), the geometry of the
  selection and the overlays, the settings choices, the capture pipeline from grabbed
  rows to JPEG bytes (encoded with `image`), the file naming, and the PDF export (page
  assembly with `lopdf`, file splitting by size).
  - `app_state.rs`, `hook.rs`, `auto_click.rs`, `ui.rs`: state, events and controls.
  - `geometry.rs`, `overlay.rs`: rectangles, overlay placement and names.
  - `capture.rs`, `text.rs`, `folder_manager.rs`: captures, number formatting and
    parsing, the default save folder.
  - `export_pdf.rs`, `pdf_document.rs`, `pdf_model.rs`: JPEG file selection and
    ordering, page content, size-bounded splitting, PDF documents and the model of their
    objects that the contracts speak of.
- `tests/` runs the library on concrete values.
- `app/` is the Win32 program around the library (dialog, global hooks, layered
  overlay windows, GDI screen grabbing, files, the background clicker thread). It
  builds only for Windows targets.
