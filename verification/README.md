# locd

A toolkit for the locd delegation protocol: Ed25519-signed delegation
tokens in CBOR/COSE, DNS identity, revocation and rotation records, the
HELLO / CHALLENGE / RESPONSE / RESULT exchange between a claimant and a
verifier, revocation caching, golden test vectors and compliance checks.

## Layout

- `src/` is the library, written in Verus. Every function carries a
  contract that Verus proves. Cryptography, encodings, CBOR, UUIDs, the
  clock and randomness come from their crates through a small set of
  trusted wrappers, each documented where it is declared; everything that
  decides, parses, formats or keeps state is verified.
  - `token`, `builder`, `validator`: delegation tokens, their builder and
    their validation against a request context.
  - `messages`, `claimant`, `verification`: the protocol messages and the
    two sides of the exchange.
  - `records`, `txt`, `resolver`, `mockdns`: DNS TXT records and a record
    store answering queries.
  - `revocation`, `idset`: revocation data, the TTL cache and the checkers.
  - `ed25519`, `x25519`, `aead`, `kdf`, `password`, `encoding`, `cbor`,
    `types`: the primitives, behind their trusted wrappers.
  - `vectors`, `compliance`, `audit`, `toolkit`: test vectors, compliance
    checks, security audit checks and the logic of the command-line tools.
- `app/` is the command-line program around the library: argument
  parsing, files, network, the DNS server, JSON and HTML output, timing.
- `tests/` runs the library on concrete values.

Laws that span several functions (round trips of the encodings and
records, cache behaviour, the honest exchange being accepted and an
accepted exchange being honest) are public proof functions in the modules
they speak of.
