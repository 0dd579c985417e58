# vgm_parser

A verified library for VGM (Video Game Music) files: it reads, validates and
writes the header, the command stream and the GD3 metadata of a file, and
turns command streams into tokens. The library's functions carry contracts
that Verus proves; the few calls into other crates stand behind trusted
wrappers whose contracts are stated in their doc comments.

- `src/header.rs`, `src/vgm_commands.rs`, `src/metadata.rs`: reading the three
  parts of a file, as functions from bytes to values with exact contracts.
- `src/command_writer.rs`, `src/custom_encoder.rs`: writing commands, with the
  laws that what is written reads back.
- `src/decompression.rs`: bit-packed and DPCM data blocks.
- `src/validation.rs`, `src/parser_config.rs`: limits and validation rules.
- `src/tokenizing.rs`: chip setup instructions and the token registry.
- `src/lib.rs`: `VgmFile`, the whole file, and `readable`, which tells
  before a read whether the bytes hold all that their header describes.
- `src/buffer.rs`, `src/utils.rs`: the calls into the `bytes` and `flate2`
  crates and std's UTF-16 and UTF-8 decoding, each behind a trusted item.
- `app/`: the program that reads a file from disk and writes what it finds.
