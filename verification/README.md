# openfund

The decisions of the OpenFund exchange programs on Solana, verified with Verus.

- `src/dex.rs`: constant-product pools: pool creation, liquidity deposits and
  withdrawals, swaps, with laws on reserves, rounding and round trips.
- `src/settlement.rs`: escrowed orders: the settlement manager's parameters,
  order creation, cancellation and execution as transitions that also name the
  token transfers to make, with laws on fees, refunds and settling once.
- `src/oracle.rs`: price feed configuration, reading Pyth and Switchboard
  accounts, and the freshness and confidence checks of a price.
- `src/token.rs`: the steps of creating a token, with metadata for Token-2022.
- `src/math.rs`: arithmetic lemmas; `src/address.rs`: account addresses.

`app/` holds the Anchor instruction handlers: account validation, the clock,
calls into the token programs, and the floating-point parts (the first
deposit's square root and the confidence ratio of a price).
