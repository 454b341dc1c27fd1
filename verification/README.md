# strip_vault

Dividend-stripping vaults for Token-2022 stocks that use the Scaled UI Amount extension.
A holder locks stock in a vault and receives a Master Deed NFT; shares of future dividends
can be carved out into bearer Yield NFTs. A keeper harvests each multiplier rise as the raw
tokens that carry it, swaps them into USDC or SOL, and splits the payout between the Yield NFT
holders and the Master Deed holder.

Layout:

- `src/` — the verified library: fixed-point dividend arithmetic (`utils/math.rs`), the
  Token-2022 mint parser (`utils/scaled_ui.rs`), the vault and yield record state (`state/`),
  and the decision of every instruction (`instructions/`), each from the accounts' state and
  data to the new state, the transfers to make and the event. `instructions/allocation.rs`
  composes them: every strip, buyout, harvest, swap and successful distribution is an
  allocation step, and over any history of such steps from a fresh vault the allocation stays
  the sum of the shares of the active yield records, within 100%, with every active share
  positive. A successful distribution naming distinct records of the vault, in any order, names
  every active record, pays each active unexpired one its cut and the Master Deed holder the
  rest. The Metaplex Core asset read,
  the SPL Token account read and the program address derivation (`utils/core_asset.rs`,
  `utils/accounts.rs`) are trusted wrappers around those crates: their contracts are believed,
  not proved.
- `app/` — the Anchor program around it: account constraints, token transfers, Metaplex Core
  mints and burns, account storage, events, and the float conversion of the multiplier.
- `tests/` — tests of the library.
