# pallet_did

A verified model of two DID (decentralized identifier) registry pallets.

- `src/did.rs`: the DID pallet. Accounts create regular (`did:ssid:x`) or
  temporary (`did:temp:x`) DIDs, delete them, and delegate them to other
  accounts. Every DID is stored with the block at which it was created; the
  pallet is configured with how long a temporary DID is valid.
- `src/template.rs`: the template pallet. Accounts create `did:x` DIDs,
  delete them, and renew their own DID once ten blocks have passed.
- `src/did_laws.rs`, `src/template_laws.rs`: properties that span calls,
  proved over the transition functions that the dispatchables' contracts use.
- `src/storage.rs`: the keyed store that holds each storage map.
- `src/primitives.rs`: origins, dispatch errors, byte checks.
- `src/keys.rs`: public keys, with the two outside calls the pallets make
  (`sp_core`'s default sr25519 key, `parity_scale_codec` decoding of an
  account identifier).
- `app/`: the FRAME pallets that move storage, origins, block numbers and
  events between a runtime and the library.

Each dispatchable takes the call's origin (and, where it reads the clock, the
current block number) and returns the event it deposits or the reason it
refused; a refused call leaves the storage unchanged. A DID that is already
registered, or an account that already has a DID, cannot create another one,
so the owner lookup and the reverse lookup stay inverse to each other.
