# money_transfer

A Temporal money-transfer worker whose decisions are verified with Verus.

A transfer validates the request, withdraws the amount, deposits it and
notifies the customer, reporting its progress (25, 50, 75, 100 percent) to a
`transferStatus` query. Scenario workflows add a twist chosen by their
workflow type: waiting for a human approval, publishing the current step as
a search attribute, failing on purpose after the withdraw, an API that is
down for the first attempts, and an invalid destination account whose failed
deposit is compensated by reverting the withdraw. Payloads can be encrypted
with AES-256-GCM.

## Layout

- `src/` — the verified library.
  - `transfer.rs`: a transfer run as a state machine. `TransferRun::step`
    takes the outcome of the last command and returns the next one; its
    contract is the transition function `TransferRun::next`, and the laws
    of a run (progress never decreases, money moves only after validation
    and approval, failed deposits are compensated, a run completes with the
    deposit's charge, runs always advance) are proved over it.
  - `account_transfer_workflow.rs`, `account_transfer_workflow_scenarios.rs`:
    the state the workflows keep, their queries, and the approval signal and
    update handlers.
  - `activities.rs`: the banking activities against the simulated API, and
    the retry policy.
  - `codec.rs`: the payload codec, over `aes-gcm` and `prost`.
  - `connection.rs`: connection settings, authentication choice and the
    server URL.
  - `shared.rs`: the values exchanged with the UI and the activities.
- `app/` — the worker program: Temporal registration, the loop that performs
  each command of a run, activity sleeps, and the connection setup.
- `tests/` — tests of the library on concrete values.
