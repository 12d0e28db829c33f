# libwezterm

A verified core for embedding a terminal engine in native applications, and
for hosting PTY sessions on behalf of such applications.

`src/` is the library, written and proved with Verus:

- `types` – the C-facing value types (colors, cells, cursor, keys, mouse,
  configuration) and how a screen cell is packed.
- `cells` – copying a line's cells into a caller's buffer, with blank padding.
- `selection`, `text` – selection ranges and the text a selection covers,
  with each line's trailing white space removed.
- `view` – viewport scrolling and mouse-driven selection tracking.
- `output` – bytes waiting to be sent to the PTY.
- `config` – terminal configuration and palette updates from host values.
- `input` – host modifier masks and key characters.
- `alert` – which host callback a terminal notification calls.
- `render` – frame decisions of the GPU renderer (redraw tracking, visible
  rows, cluster clipping, cursor, color layout).
- `fonts` – the font list with its fallback chain.
- `session`, `spawn`, `escape` – the PTY session host: status codes, session
  state, spawn requests, and the events read from a program's output.

`app/` holds the C ABI around it: raw pointers and C strings, the terminal
engine, the GPU and font stacks, PTY I/O and threads, and float colors.
`tests/` exercises the library on concrete values.
