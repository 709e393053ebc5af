# web_sw_cor24_x_tinyc

The logic of a browser playground for the COR24 tiny-C cross-compiler, as a
Verus-verified library, with the Yew front end around it.

- `src/` — the verified library:
  - `demos.rs`: the inline demo sources, the fetched-demo catalogue, and what
    picking a demo leads to;
  - `rtc.rs`: DS1307 clock arithmetic (seconds ↔ H:M:S, anchored advance
    modulo one day), the clock panel's text and inputs, and the battery /
    anchor state machine with its persistence decisions;
  - `sdcard.rs`: the 8-sector test image, the size label (exactly what
    `{:.1}` prints for the `f64` quotient), and the upload/reset state;
  - `listing.rs`: listing lines, the line-number gutter and the coloured
    columns;
  - `panels.rs`: registers, LED, S2 switch and idle placeholders;
  - `run.rs`: keyboard bytes for the UART, the UART input queue, batch
    outcomes and the run controls' state;
  - `text.rs`: decimal/hex rendering with padding and `u32` parsing.
- `app/` — the Yew application: DOM, timers, localStorage, IndexedDB, the
  emulator and assembler crates, and the floating-point wall clock.
- `tests/` — tests of the library.
