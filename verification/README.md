# andromeda_lockdrop

The verified core of two CosmWasm contracts: the lockdrop (users lock a
native token during a deposit window, may take part of it back during a
withdrawal window, then claim a proportional share of incentive tokens) and
the virtual file system's reply and migration decisions.

- `src/` — the library, verified with Verus. Each request is a function
  from the stored records and the request to the new records and the reply.
  - `math.rs` — fixed-point decimals and the `cosmwasm_std` arithmetic used.
  - `error.rs` — the contract errors.
  - `version.rs` — the migration guard over semantic versions.
  - `lockdrop.rs` — windows, withdrawal limit and the lockdrop requests.
  - `lockdrop_laws.rs` — properties proved across requests.
  - `lockdrop_run.rs` — the lockdrop over a whole run of requests.
  - `vfs.rs` — the virtual file system's reply and migration.
- `app/` — the CosmWasm entry points: storage, messages and responses.
- `tests/` — tests of the library on concrete values.
