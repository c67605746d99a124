# front_earning_program

The instruction logic of a Solana program that turns delayed settlement into
instant discounts, written in Verus and verified.

- `src/state.rs`: the accounts (config, payment, pool, deposit, investment, deal).
- `src/instructions/`: one module per instruction. Each function takes the
  values of the accounts it reads and writes, checks the request, updates the
  accounts, and returns what remains to be done with tokens: transfers,
  approvals, and Numeraire swap instructions with the seeds that sign for
  program vaults.
- `src/pool.rs`: share accounting of the lenders' liquidity pool.
- `src/discount.rs`: which discount a payment token earns.
- `src/cpi.rs`: instruction accounts, the `swap_exact_in` data layout, vault seeds.
- `src/keys.rs`: the trusted specifications of the `Pubkey` operations used.
- `src/laws.rs`: properties that span the instructions, proved.
- `app/`: the Anchor program around the library: account validation, the
  clock, token CPIs, and the on-chain copies of the account types.

The tests under `tests/` run the library on concrete accounts.
