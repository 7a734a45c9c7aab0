# marketplace-index

Host-side tool that turns the operator's editable JSON marketplace index
into the canonical index that the NONOS decoder reads, signs it with the
operator's Ed25519 key, and checks signed blobs.

- `src/` — the verified library (Verus): flag parsing (`args`), the
  subcommand decisions (`commands`), the canonical index model (`abi`),
  the JSON form (`schema`), the projections between them and their
  round-trip laws (`json`), hex text through the `hex` crate
  (`hexcodec`), operator keys through `ed25519-dalek` (`keys`),
  publisher signatures on releases (`release_signing`), errors and exit
  codes (`error`), and small text utilities (`text`).
- `app/` — the command-line program: file and environment I/O, serde
  JSON, random seeds, and the binary encoder/decoder of
  `nonos_marketplace_abi`.
- `tests/` — tests of the library.
