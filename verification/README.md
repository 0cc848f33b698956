# lameboy

A Game Boy (DMG) emulator core, written in Rust and verified with Verus.

## Layout

- `src/` — the verified library.
  - `lameboy/` — the emulator: the cart and its memory bank controller (`cart/`), the memory
    bus with DMA, echo RAM and memory breakpoints (`mmu/`), the CPU with its registers, the full
    instruction set and its decoder, interrupts and the EI/DI delay (`cpu/`), the video memory
    (`ppu.rs`) and the frame loop with breakpoints (`mod.rs`).
  - `joypad.rs` — the joypad register.
  - `gui/imguidebug.rs` — the state of the debug windows and the breakpoint lists.
  - `dis/` — decoded instructions, used by the disassembly view (`lameboy/mmu/debug/`).
  - `cart/`, `cpu/registers.rs` — the first, ROM-image view of a cart and the first register
    file.
  - `text.rs` — hexadecimal and decimal formatting and text replacement.
  - `bits.rs` — bit-level facts the proofs use.
- `tests/` — tests of the library.
- `app/main.rs` — a headless runner: loads a ROM file and runs frames.

Every instruction is specified as a function from the CPU state (registers and memory, as
plain values) to the state after it and the cycles it takes; the decoder is proved to run the
instruction its opcode names. Algebraic facts are proved alongside: register writes read back,
a pop gives back what was pushed, RET returns after CALL, DAA corrects BCD addition and
subtraction, DMA copies a page into OAM, and more.
