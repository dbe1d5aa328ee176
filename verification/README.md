# r2ox

Support library of a small x86-64 kernel, verified with Verus.

- `src/vga.rs` — the 80x25 VGA text console: colours and attribute bytes, the
  screen's cells, and the cursor that writes bytes, breaks lines, scrolls and
  clears the screen.
- `src/memory/` — physical and virtual addresses (checked by the `x86_64`
  crate), page indices, frames and pages, inclusive ranges of them (merge,
  overlap, containment), and the allocator's lists: bounded and held
  inline, or growable.
- `src/arch/x86_64/` — descriptor-table constants and the PIC interrupt vectors.
- `src/logging.rs` — the lines the logger writes for each record.
- `src/framebuffer.rs` — pixel addressing in a linear framebuffer.
- `app/` — the kernel itself: boot entry points, the serial ports, the
  memory-mapped VGA buffer, the `log` backend, the descriptor tables and the
  interrupt handlers. It targets a nightly, bare-metal x86-64 build.
