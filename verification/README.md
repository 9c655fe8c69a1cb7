# aurora

The core of a post-quantum OpenSSL provider, written in Verus: key
management, DER/PEM encodings and the adapter registry for ML-DSA-44/65
signatures and the X25519MLKEM768 hybrid KEM, with their contracts proved.

Layout:

- `src/` — the verified library.
  - `der`, `pkix`, `hex` — DER building blocks, the PKCS#8 / SPKI / PEM
    calls into `pkcs8` and `pem`, and hex dumps.
  - `keymgmt` — parameter names, selections and the get-parameters walk
    shared by every key type.
  - `mldsa/` — ML-DSA parameter sets, keys and key pairs, the seed / expanded
    private-key ASN.1 forms, and the SPKI / PrivateKeyInfo encoders and
    decoders. Signing and verification call `ml-dsa` and `pqcrypto-mldsa`.
  - `kem/` — the X25519MLKEM768 hybrid on top of `libcrux-kem`, its key
    management, and the buffer protocol of the KEM calls.
  - `adapters`, `provider` — the registry of algorithms, capabilities and
    signature object ids (filled from adapters whose registrations are named
    by the adapter trait; `StaticAdapter` is an adapter given by its fixed
    tables), and one provider instance with its parameters.
  - `wycheproof` — runners that check the signature code against Wycheproof
    test vectors.
- `tests/` — the test suite, run against the real outside crates.
- `app/` — process glue that cannot be verified: logging set-up, `Display`
  for the error types, the raw-pointer edge of the KEM calls, and the loop
  that performs object-id registrations with the OpenSSL core.

Trusted items (calls into outside crates whose contracts are assumed) are
the `#[verifier::external_body]` functions in `pkix`, `random`,
`kem/backend` and `mldsa/backend`, each with a doc comment saying what it
claims.
