# conduit_contracts

Verified models of the StellarConduit Soroban contracts, written in Verus.

- `src/` is the verified library. Each contract's persistent storage is a
  plain-value struct (`FeeDistributorContract`, `TreasuryContract`,
  `RelayRegistryContract`, `DisputeResolverContract`) with a mathematical view,
  typed storage accessors in its `storage` module, and its entry points as
  methods whose contracts say exactly which error each input gets and what the
  storage becomes. Failed calls leave storage unchanged. Each contract's
  `laws` module proves the properties that span operations (balanced
  earnings, balanced treasury books, permanent slashing, ...).
  Accounts are `u64` ids; what an invocation reads from the ledger arrives as
  a `LedgerContext`; token movements come back as `Transfer` values.
- `app/` holds the Soroban contracts themselves: authorization, loading and
  storing ledger entries, token transfers and events around the library.
- `tests/` runs the library on the contracts' test scenarios.
