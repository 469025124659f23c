# exchange_core

The logic of a perpetual-futures exchange on Soroban, verified with Verus: the shared
fixed-point math and validation rules, price aggregation, and the state machines of the
oracle manager, trading core, liquidity manager, vault, risk manager and testnet faucet.

## Layout

- `src/` — the verified library.
  - `constants`, `errors`, `types`: the shared constants, the error enum and the data types,
    with accounts and assets numbered (`AccountId`, `AssetId`).
  - `math`, `validation`, `price`: position size, liquidation price, PnL, fees, funding,
    LP token minting and redemption, utilization, the input checks and price averages; each
    function's result is stated exactly over a spec function on integers.
  - `totals`: sums over finite maps, used to state that LP supplies equal what holders hold.
  - `pool`: the accounting of a liquidity pool (reserve, release, recompute), shared by the
    vault and the liquidity manager.
  - `oracle`, `trading`, `liquidity`, `vault`, `risk`, `faucet`: one state struct per
    contract, with a mathematical view, a spec function giving the outcome of every
    operation (the new state and the result, or the error with the state unchanged), a
    well-formedness invariant, and the laws that relate the operations.
- `tests/` — tests on concrete values.
- `app/` — the Soroban contracts: storage, authorization, token transfers and the ledger
  clock around the library. Each call loads the part of the contract's storage it needs
  into the library's state, lets the library decide, performs what the decision asks for,
  and stores the state back.
