# abe_frontend

The editing logic of the ad-buy-engine dashboard, verified with Verus: the
state machines behind the condition, funnel, sequence, listicle, matrix,
offer, traffic source and campaign editors, the routing decisions of the
dashboard, and the text handling they rely on.

- `src/` is the verified library. Each editor is a plain struct whose
  methods carry contracts over its fields; URL, decimal, UUID and clock calls
  go through the trusted items in `src/outside.rs`.
- `tests/` runs the library on concrete values.
- `app/` is the browser-side glue: IP address parsing, the checks made before
  calling functions with preconditions, and the notice texts.
