# skin_trader

Verified building blocks of a set of skin-trading tools for the BitSkins and
DMarket marketplaces, and the tools themselves.

- `src/` is the library, verified with Verus: request pacing and per-second
  rate budgets, paging over search results, DMarket request signing, the
  BitSkins WebSocket protocol and endpoint table, the traders' decision rules
  (routing of socket events, choice of the cheapest deal, buy signals,
  repricing of offers, new-sale detection, highest-bid reading), bookkeeping
  rules for the stored listings, and a survey of JSON field types. Each
  public function states its result in its contract; the laws that span
  several calls (spacing of paced requests, at most `limit` requests per
  second, paging done step by step equals paging planned up front, and so on)
  are public proof functions.
- `tests/` runs the library on concrete values.
- `app/` is the program around it: HTTP, WebSocket and database I/O, the
  schedulers, the float arithmetic of prices and statistics, and plotting.
  Its first argument picks the tool: `bitskins`, `sync`, `monitor`,
  `dmarket`, `bot`, `lower-prices`, `sandbox` or `plot`.
