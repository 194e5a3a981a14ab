# lottery

A round-based lottery contract for a CosmWasm chain, with its decision logic
verified by Verus.

- `src/` — the verified library: the lottery state and its rounds
  (`state`), the entry bonus and time checks (`helpers`), the request
  handlers as functions from state and request to new state and outcome
  (`contract`), the message types (`msg`) and errors (`error`).
- `app/` — the contract's entry points: storage, queries to NFT contracts and
  the bank, serialisation, and building chain responses from the library's
  outcomes.
- `tests/` — tests of the library on concrete values.
