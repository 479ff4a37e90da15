# deposit_pool

A pool that receives SOL and mints a pool token one for one; users hand the
tokens back to take their SOL out again.

- `src/` is the verified library: the pool account's data and its
  load/store, the programs each instruction registers, the steps each
  handler takes (which cross-program calls, with which amounts and signer
  seeds, in which order), the lamport arithmetic of a withdrawal, index
  wrapping, and a model of the balances the instructions touch with the laws
  proved of it (one-for-one exchange, conservation of lamports, backing of
  the tokens, deposit-then-withdraw round trip). The model gives the
  balances an instruction leaves if it completes and the shortages and
  overflows that make it fail; other failures (signers, owners, mints,
  frozen accounts, rent) lie outside it. The token balances are those of
  the accounts an instruction is handed: the program checks neither their
  mint nor that the pool's token account is the pool's own, and the backing
  laws speak of the pool where they are, as two distinct accounts.
- `app/` is the on-chain program around it: the account constraints, the
  entry points, and the code that carries out each step against the runtime.
- `tests/` runs the library on concrete values.
