# pump

A constant-product liquidity pool of two tokens, with its arithmetic proved
in Verus.

- `src/` is the verified library: decimal scaling (`calc`), errors
  (`errors`), account addresses and their order (`pubkey`), the pool and
  provider accounts with the deposit, withdrawal and swap rules (`state`),
  and the properties proved of them (`laws`).
- `app/` holds what runs on chain around it: the Anchor account types, the
  token transfers, and the floating-point fee and first-deposit arithmetic.
