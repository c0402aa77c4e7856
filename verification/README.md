# base

The core data types and rules of the SNP protocol, verified with Verus.

- `src/` is the library. `snp/` holds the protocol's message types, each with
  its protobuf encoding stated as a spec function and an encoder proved to
  write exactly it (`encoding.rs`). The other modules hold the protocol's
  rules: signing and verifying each signed message, identity bundles, channel
  and group lookups, account balances, ledger transactions and their fees,
  store-request checks, the typed-message dispatcher's registry and the
  routing of service requests. `crypto.rs` and `system.rs` are the trusted
  boundary to ed25519-dalek, x25519-dalek, orion, rand_core and chrono.
- `tests/` runs the library on concrete values, among them the RFC 8032,
  RFC 7748 and SHA-512 test vectors.
- `app/` is the unverified rest: the message types deriving prost's
  `Message`, with conversions to and from the library's types; the gRPC
  clients and servers of the blockchain, provider core and simple client
  services (tonic), which route requests through the library's verified
  routing; prost decoding of stored bundles; the configuration and
  dispatching actors (xactor, config); and local dates.
