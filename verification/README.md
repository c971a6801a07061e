# exc

Connectors for crypto exchanges (StandX, Toobit, Weex, XT, Paradex and a
simulated exchange), written in Verus.

- `src/` is the verified library: request descriptions with their methods,
  paths and signing needs, assets and symbols, the order types and their
  conversions between exchange dialects, request signing, the HTTP request
  plans, and the decisions of the trading services (which request to send,
  which record of an answer stands for an order, funding intervals). Calls
  into outside crates (base58, Ed25519, base64, decimals, time) go through
  small trusted wrappers whose contracts name what they return.
- `app/` is ordinary Rust around it: the wire formats (serde), the
  conversion to `reqwest` requests, and the floating-point arithmetic of
  prices, sizes, positions and balances.
- `tests/` runs the library on concrete values.
