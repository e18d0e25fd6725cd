# rusty_box_decoder

An x86 instruction decoder with machine-checked contracts. `fetch_decode32`
(16/32-bit mode) and `fetch_decode64` (64-bit mode) turn the first bytes of a
buffer into a decoded instruction — opcode, length, prefix flags, register
operands, memory operand, immediate and displacement — or say exactly which
error stops the decoding. The opcode tables follow the Bochs `cpu/decoder/`
layout.

The library in `src/` is written in Verus. Each decoding step is a spec
function over the instruction's window (its first bytes, at most 15), and the
executable decoders are proved to compute exactly the composition of those
steps. On top of that, `properties32.rs` and `properties64.rs` prove what the
decoders read and produce:

- a decoded instruction is 1 to 15 bytes long, lies within the buffer, and
  names an opcode;
- only the first 15 bytes of a buffer take part in decoding;
- bytes after a decoded instruction do not change how it decodes, an
  instruction decodes from its own bytes alone, and no shorter part of it
  decodes; only an empty buffer is reported as empty;
- register fields, scale and segment of a decoded instruction are in range;
- the prefixes select what their documentation says: `66`/`67` toggle the
  operand/address size however often they occur, without a segment prefix a
  BP/EBP/ESP-based operand is in SS and any other in DS, and in 64-bit mode
  the REX prefix in force is the byte just before the opcode;
- `F2` and `F3` select the SSE-prefix column of the opcode tables as the
  tables number them (`F3` = 2, `F2` = 3) in 64-bit mode, and the other way
  round in 16/32-bit mode.

`opcode_isa.rs` bounds the values of the per-opcode attribute tables, and
`tests/opcode_tables.rs` counts them over every opcode.

`instruction.rs` and `instr_generated.rs` hold the two instruction records
with their accessors; their setters are proved to write what the getters
read back.

Layout:

- `src/` — the verified library
- `tests/` — tests run against the compiled library
- `app/` — the flags as a `bitflags` type and register-dump `Debug` forms of
  the operand and displacement words
