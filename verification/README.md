# kongswap_adaptor

A treasury manager that keeps a DAO's two tokens (an SNS token and ICP) in a
KongSwap pool: it deposits allowances into the pool, withdraws everything back
to the owners, refreshes the cached balances, and returns what is left on the
ledgers. Every call it makes is recorded in an audit trail, which also serves
as a lock: while a deposit or withdrawal is open (for at most 45 minutes), no
other operation starts.

The library under `src/` is verified with Verus:

- `types`, `principal`, `natural`, `symbol`, `text`: the plain data of the
  interface (accounts, principals, natural numbers, token symbols) and the
  text they are shown as.
- `validation`: the checks that turn requests into validated assets,
  allowances and accounts.
- `balances`: the cached balances and their report, keyed by asset.
- `state`: the adaptor itself, its audit trail, and the lock.
- `audit`: step numbering of an operation and the bounded audit-trail text.
- `kong_types`, `requests`, `agent`: the KongSwap and ledger requests and
  replies, as the library sees them.
- `dex`: the decisions taken on each reply (amounts, fees, LP balances,
  claims, errors).
- `flow`: the four operations as state machines; each step takes the
  replies of the calls that the last step asked for and says what to do next.

`app/` is the canister around the library: the endpoints, stable storage,
timers, the inter-canister calls, and the loop that runs the state machines.

## Known difference: transfer memos

The transfers that return what the adaptor holds to the owners are meant to
carry, as their ICRC-1 memo, the bytes of the treasury-manager step that they
are recorded under (`Vec<u8>::from(TreasuryManagerOperation)`). That encoding
belongs to the `sns_treasury_manager` interface crate, which could not be had
here and whose source is not available, so it cannot be reproduced faithfully.
These transfers are therefore made without a memo (`memo: None`), and the
library's contracts say so; the step of each transfer is still recorded in the
audit trail. Supplying the memo needs only that encoding: the transfer
arguments are built by `dex::transfer_request`, which takes the memo as a
parameter.
