# floresta

The verified core of a Bitcoin light node, written in Verus.

- `src/` is the library: the `MMmmpp` version encoding, the JSON-RPC error
  mapping and parameter lookup decisions, the `getmemoryinfo`,
  `getnetworkinfo` and `getaddrmaninfo` reports, the steps of a
  `disconnectnode` request, the byte layout of the flat compact-filter
  store and the check that a stored filter can be matched, the in-memory
  watch-only database, and the messages and causes of the chain's and the
  peer-to-peer layer's errors. Verus proves the contract of each function
  there. The exceptions are the small trusted wrappers around `bitcoin`,
  `rustreexo` and `std` formatting, whose contracts are documented where
  they are declared, and two `From` conversions whose trait-level
  specification is left unstated (one builds a `String`, the other boxes a
  value of a caller's type); their own `ensures` says what they return.
- `app/` holds what touches the outside world: filter files and their locks,
  the allocator statistics, the clock, the node behind the network
  endpoints, the shared lock around the wallet database, JSON
  deserialisation and the serialisable copies of RPC results.
- `tests/` exercises the library on concrete values.

The watch-only database keeps its address and transaction tables in a
`Vec` with a unique-key invariant (`src/table.rs`) rather than in a
`HashMap`. vstd specifies what a `HashMap` lookup returns only for key
types it gives a key model (integers, `bool` and boxes of them); a 32-byte
hash has none, so no contract over such a map could be proved.
