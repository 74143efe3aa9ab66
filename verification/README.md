# coopacrypt

The `.coocrypt` vault format (version 2) as a Verus-verified library, and the
`coopacrypt` command-line tool around it.

A vault is one Markdown document encrypted into a single self-contained file:

```text
64-byte header (plaintext, authenticated) || ciphertext (N x 4096) || 16-byte tag
```

Argon2id v0x13 derives the key from the password (spaces mapped, NFC, UTF-8),
XChaCha20-Poly1305 seals the document with the header as associated data, and
the document is padded to a multiple of 4096 bytes.

## Layout

- `src/header.rs` — the 64-byte header, parameter bounds, encode/decode laws.
- `src/password.rs` — password preparation.
- `src/vault.rs` — padding, encryption, decryption, inspection, and the law
  that a written file reads back to its document.
- `src/primitives.rs` — the trusted contracts of the outside calls (Argon2id,
  XChaCha20-Poly1305, entropy, NFC, zeroization, UTF-8 reading).
- `src/error.rs` — errors and their messages.
- `src/session.rs`, `src/launch.rs`, `src/assoc.rs`, `src/desktop.rs` — the
  decisions of the desktop application: idle locking, launch arguments, file
  association, what its commands return.
- `src/cli.rs` — password-line handling and the weak-passphrase warning.
- `app/` — the command-line program: files, terminal, atomic writes.
