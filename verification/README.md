# biq

The verified core of BIQ (Bharat Intel Quantum), a research platform that
tracks flights, vessels and vehicles near India's border corridors and fuses
open-source intelligence into threat assessments.

- `src/` is the library, written in Verus: every function carries a contract
  that Verus proves. It holds the rules of both services: settings and their
  defaults, identifier and key validation, the anomaly and alert decisions,
  quota and scheduling arithmetic, query classification and context, feed and
  sanctions-list parsing, the prompts and replies around the language model,
  and the Kyber and base64 steps of the quantum endpoints. Calls into outside
  crates (XML readers, URL handling, UUIDs, base64, Kyber) go through small
  trusted functions whose contracts say what the library relies on.
  Functions named `law_*` are proof functions that state properties spanning
  several operations.
- `tests/` runs the library on concrete values.
- `app/` is the ordinary Rust around it: the HTTP servers, websockets,
  Redis, the graph database, outside HTTP providers, and the computations on
  floating-point measurements (scores, distances, corridors). Started with
  the argument `tracking` it runs the tracking service, otherwise the
  intelligence API.
