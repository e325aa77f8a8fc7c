# bank

Account bookkeeping for a small bank, verified with Verus.

- `src/transaction.rs`: transactions (deposit, withdrawal, dispute, resolve, chargeback).
- `src/account.rs`: an account, its mathematical model `AccountView`, and the
  model of each operation; every executable operation is proved to do exactly
  what the model says, and an error always leaves the account unchanged.
- `src/state.rs`: all accounts, keyed by client; each transaction goes to its
  client's account, which is opened on first use.
- `src/laws.rs`: invariants kept across transactions (well-formedness; held
  equals the disputed amounts, as long as no accepted deposit or withdrawal
  reuses the id of a disputed transaction with another kind or amount) and how
  disputes, resolutions and chargebacks relate.
- `app/main.rs`: the command-line program: CSV input and output, decimal money
  conversion, and the channel that feeds transactions to the state.
