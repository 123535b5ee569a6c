# encoding

Character encoding support for Rust, based on the WHATWG Encoding Standard, with an
interface for error detection and recovery — written in Verus, with the behaviour of every
codec stated in contracts and proved.

## Layout

- `src/types.rs` — the interface: `RawEncoder`, `RawDecoder`, `Encoding`, the traps, and the
  mathematical model of a run of an encoder (`encode_run`) or a decoder (`decode_run`), of the
  traps (`encode_with_trap`, `decode_with_trap`), with the laws that relate them.
- `src/util.rs` — UTF-8 offsets of characters, a character iterator with byte offsets, and the
  context a decoder reads its input through.
- `src/codec/` — the codecs. A decoder is a state machine over bytes: `spec_step` says what one
  byte does, and `raw_feed` is proved to run that machine. An encoder is given by what each
  character becomes (`spec_encode_char`).
- `src/index.rs` — the index tables of the legacy encodings, looked up in the
  `encoding-index-*` crates; each lookup is named, and only the name of its result is assumed.
- `src/encoding_ref.rs`, `src/all.rs`, `src/label.rs` — any encoding as a value, the list of
  encodings, and the lookup of an encoding by a WHATWG label or a Windows code page.
- `app/main.rs` — `recode`, a command-line converter.
