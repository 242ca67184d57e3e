# rainbow_dao

The contracts of the RainbowDAO protocol, as a verified library: the DAO building
blocks (base information, categories, settings, members and groups, proposals,
vault, templates, factory, manager) and the protocol kernel (routes, roles,
privileges, users, income categories, governance, multisig wallets and an ERC-20
token with vote checkpoints), each in an ink! flavour and, where the project has
one, a NEAR flavour.

- `src/` holds the library. Every function states in `requires` / `ensures`
  what it does, over spec views of each contract's storage, and Verus proves
  it. Chain reads (the caller, the block, the balance, the time) are
  parameters; calls into other contracts, payments and account creation are
  returned as values for the chain side to perform. Laws of the library
  (conservation of the token supply, proposal and template ids, invitation
  codes, multisig payouts, unreachable proposal states) are public proof
  functions next to the contracts they speak of.
- `tests/` runs the library on concrete values.
- `app/` is the chain side: it reads the environment of ink! and NEAR
  contracts, checks what the contracts checked before calling the library, and
  performs the instantiations, cross-contract calls, transfers and promises the
  library asks for.

## Collections

The contracts' storage maps are the library's own `KeyedMap` (`src/keyed_map.rs`),
a map kept as two vectors in insertion order, and `AccountFlags`
(`src/account.rs`) for flags kept in account order. The chains' maps cannot
hold the library's types: near-sdk's `LookupMap` asks `BorshSerialize` and
`BorshDeserialize` of its keys and values (`collections/lookup_map.rs`),
ink!'s storage map asks ink!'s storage-layout and SCALE traits, and a type of
this library can have neither (no derive of another crate applies to it in
`src/`, and no other crate may implement another crate's trait for it). Both
maps also read and write through the chain's host, which off the chain exists
only in their test environments.
