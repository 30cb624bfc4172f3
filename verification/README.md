# lenzu (verified core)

The decision-making and text-producing core of the Lenzu OCR lens, written in
Verus and proved against its contracts.

- `src/` — the verified library:
  - `overlay` — HUD overlay text for each render mode.
  - `furigana_html` — bracketed furigana to `<ruby>` markup (via `mecab-furigana-rs`).
  - `hud_ipc` — JSON datagrams for the HUD, loopback addresses, gRPC-first /
    UDP-fallback routing and the shared channel slot.
  - `lens` — the lens state machine: key combos with edge detection and
    debounce, captures, generation-stamped OCR results, HUD repositioning.
  - `lang`, `color`, `grabs`, `launch`, `pipeline`, `text` — flags and status
    line, HUD colour parsing, X11 passive grabs, HUD process launch and help
    texts, OCR pipeline decisions, string helpers.
- `tests/` — tests run against the compiled library.
- `app/` — the I/O around the library: sockets, gRPC, X11, the HUD child
  process and the poll loop that drives `lens::LensState`.
