# gear_dapps

Verified decision logic of six small Gear programs (greeting, loan, escrow,
ICO, non-fungible token, sealed-bid auction) and the message types they
exchange, written in Verus.

- `src/` — the library. Each program is a state type with handlers that take
  the state and what the runtime reports about a message (sender, attached
  value, block time, message id) and return a refusal, leaving the state as it
  was, or the new state and the messages to send. Handlers that wait for
  another program are split where they wait. Every handler's contract is an
  exact spec function; the laws of each program are proof functions at the end
  of its module. `assoc_map` is the verified finite map the programs store
  their tables in.
- `tests/` — scenarios of the programs' own tests and further cases.
- `app/` — the runtime side: loading messages with `gstd`, SCALE-encoded copies
  of the message types, and carrying out replies, sends, waits and wakes.
