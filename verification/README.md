# devnet_receipts

Transaction receipts of a Starknet devnet, verified with Verus.

- `src/felt.rs`: field elements, contract and L1 addresses, byte-wise equality.
- `src/event.rs`: events and L2-to-L1 messages.
- `src/status.rs`: transaction kinds, execution outcomes, finality, fees.
- `src/receipt.rs`: the receipts and their equality, which ignores the
  finality status; proofs that each equality is an equivalence relation.
- `src/resources.rs`: the execution resources a receipt reports, computed
  from the resources that a call or a whole transaction recorded.
- `app/`: the JSON forms of the receipts and the reading of the blockifier's
  execution records into the library's resource records.
