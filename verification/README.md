# Echover

A desktop audiobook player whose decisions are verified with Verus.

- `src/` is the verified library `echover`: the library snapshot and its
  display texts, the interface state and what actions, keys and clicks do
  to it, the dispatcher that drives playback, storage and the folder picker
  one request at a time, the folder scan's grouping into audiobooks, the
  rows written on ingest, the glyph atlas packer, and the renderer's
  choices from what the graphics driver reports. Each public function
  states its result in its contract; the laws (scan grouping, atlas
  packing, dispatch progress and position saving, state idempotence, the
  filter partition) are public proof functions.
- `app/` is the program around it: the winit event loop, the Vulkan
  renderer (ash), SQLite storage (rusqlite), audio (rodio), the font and
  icon rasterizers (fontdue, tiny-skia) and the floating-point page layout.
- `tests/` exercises the library on concrete values.
