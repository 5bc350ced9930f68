# dao_pallets

The dispatch logic of two FRAME pallets — a fungible token (balances,
allowances, `approve`, `transfer`, `transferFrom`, genesis build) and a DAO
that reads token balances and the time — verified with Verus.

- `src/dispatch.rs`: origins, `ensure_signed`, dispatch errors.
- `src/token.rs`: the token pallet, generic over the account type and over a
  storage backend described by the `TokenStore` trait's abstract storage.
- `src/memory.rs`: an in-memory `TokenStore` for `u64` accounts.
- `src/dao.rs`: the DAO pallet's constants, events and calls.
- `src/laws.rs`: what the token calls conserve, undo and keep.
- `app/`: the FRAME pallets themselves (storage items, events, weights), which
  hand every decision to the library.
