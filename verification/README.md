# alian_contracts

The rules of the Alian Structure Soroban contracts (escrowed aid, treasury,
multi-tier referral rewards, the governance parameter catalog, verification
records and the registry), written in Verus and proved against their
contracts.

- `src/` is the verified library. Each contract is a state machine over the
  ledger entries it owns: an entry point takes the contract's state (an
  `...Env` struct) and its arguments, and its `ensures` say exactly what it
  returns and how the state changes. Accounts are plain identifiers
  (`AccountId`); token movements come back as `TokenTransfer` values for the
  host to carry out. Public proof functions (`lemma_...`) state the laws
  that hold across calls, such as an escrow being paid out at most once, an
  accrual never paying more than its base amount, or a listing page only
  returning the subject's own records.
- `app/` is the host shell built on `soroban-sdk`: it loads the ledger
  entries an entry point needs, authenticates callers, calls the library,
  writes back what changed, executes token transfers and cross-contract
  calls, and publishes events.
- `tests/` exercises the library on concrete values.

## Error codes

Every contract returns stable numeric codes, each in its module's reserved
range. Errors with the same meaning across several contracts use 900–999
(`shared::errors::Error`, 900–911). The errors only the treasury returns take
200–202 in the treasury's range 200–299, and the aid contract's own errors
take 100–106 in its range 100–199 (`aid::errors::AidError`, from `NotFound`
at 100 to `AlreadyRefunded` at 106). These aid numbers were chosen to keep
every module inside its range; integrations that read raw aid codes must use
them. The oracle keeps 500–507.
