# solo_machine

The verified core of an IBC solo machine: the decisions, parsers, message
builders and state machines that connect a solo machine to an IBC enabled
Cosmos SDK chain, mint and burn tokens over ICS-20 and keep the solo
machine's records. Every function in `src/` carries a contract that Verus
proves; calls into outside crates (`prost`, `prost-types`, `cosmos-sdk-proto`, `k256`, `tiny-bip39`,
`tiny-hderive`, `hex`, `rust_decimal`, `num-rational`, `primitive-types`,
`serde_json`, `env_logger`) go through small trusted wrappers whose
contracts name what the outside function returns.

## Layout

- `src/` — the library:
  - `output`, `numeric`, `text`, `hexcodec`, `ratio`, `decimal`, `duration`:
    parsing and display of the values the solo machine reads and shows.
  - `chain`: chain records, the resolution of requests to add a chain (with
    every default), queries, sequence bookkeeping, and the round trips
    between what is added and what a query answers.
  - `packets`: reading attributes, heights, packets and packet data from
    transaction results; the routing check and the mint order of a packet.
  - `signing`: key derivation, sign bytes and signatures.
  - `transaction`: the transaction builder of the messages sent to the
    chain, with the solo machine's sequence discipline (every proof
    consumes one sequence number).
  - `setup`: the builder that sets up a new client and connection, whose
    proofs are all signed at sequence one.
  - `packing`: the protobuf packing of each message for a transaction.
  - `handshake`: the connection and channel handshake as a state machine.
  - `credit`: crediting received packets (acknowledge, then mint).
  - `dispatch`: handing events to the registered handlers in order.
  - `handler`: the connection and channel ends the solo machine stores.
  - `bank`: balances of the solo machine's own ledger.
  - `events`: log lines and command line output of events.
  - `command`, `requests`: planning command line runs and reading requests.
- `tests/` — tests of the library on concrete values.
- `app/` — the command line program and gRPC server around the library.
