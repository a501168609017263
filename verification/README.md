# neurowealth-vault

A share-accounting USDC vault, verified with Verus.

- `src/` is the verified library: the vault's state (`vault.rs`), the share price
  arithmetic (`shares.rs`), per-user ledgers and their totals (`ledger.rs`), deposits
  (`deposit.rs`), withdrawals (`withdraw.rs`), administration (`admin.rs`), read queries
  and storage builders (`reads.rs`), and properties of the vault as a whole (`laws.rs`).
  Every operation either is refused with a `VaultError` and leaves the vault unchanged,
  or makes exactly the change its contract states and returns the event to publish.
- `app/` is the Soroban contract around the library: contract storage, `require_auth`,
  token transfers and balance reads, and event publication.
- `tests/` exercise the library on concrete values.
