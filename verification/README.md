# rshooks

A library for writing Xahau Hooks, verified with Verus.

Every Hook API call returns an `i64` and, for reads, fills a buffer. The
library in `src/` takes that answer and that buffer and says, in each
function's contract, exactly what they mean: which error, which decoded
value, which bytes to hand back to the host. `app/` makes the host calls
themselves and passes their answers to the library.

## Layout

- `src/error.rs`, `src/codes.rs`, `src/reply.rs` — the Hook API's error
  codes, `HookError`, and splitting an answer by sign.
- `src/bytes.rs`, `src/convert.rs`, `src/si.rs` — byte encodings of values
  and their round trips.
- `src/codec.rs`, `src/sfield.rs`, `src/sto_writer.rs`, `src/remit.rs` —
  serialized-object encoding, the bounded `StoWriter`, and a `Remit`
  transaction built with it, ready for emission.
- `src/state.rs`, `src/decl.rs` — typed hook state and declared
  state/parameter handles.
- `src/sig.rs`, `src/interface_name.rs` — signature parameters and their
  names.
- `src/slot_obj.rs`, `src/trust_line.rs` — typed slots and trust lines.
- `src/exit.rs` — entry return values and the exit they ask for.
- `src/api/` — the decoders of each Hook API family.
- `src/testenv_bridge.rs` — how a native stand-in host's answers land in a
  caller's buffer.
- `tests/` — tests of the library.
- `app/` — the host imports and the functions that call them.
