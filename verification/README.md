# x402-watch

A health monitor for public x402-enabled APIs: it checks that an endpoint
answers `402 Payment Required` with a well-formed x402 v2 `PAYMENT-REQUIRED`
header and, when a wallet key is given, pays and waits for settlement.

Layout:

- `src/` is the verified library (Verus).
  - `checker.rs`: the payment cycle as a state machine (`Checker::begin`,
    `Checker::advance`), the result of a check and its report line, and the
    laws of the cycle.
  - `wallet.rs`: the x402 payment objects, funds checks, the authorization
    and payload of a payment.
  - `error.rs`: failure kinds, their codes and messages.
  - `duration.rs`: durations such as `5s`, `10m`, `1h`.
  - `amount.rs`: 256-bit token amounts.
  - `encoding.rs`: header text, Base64, UTF-8 and hex.
  - `text.rs`: decimal digits, whitespace, padding, case mappings.
  - `config.rs`: the endpoints to watch.
- `app/` is the command-line program: arguments, configuration files, HTTP,
  signing and chain access. It performs the actions that the library's state
  machine asks for.
- `tests/` runs the library on concrete inputs.
