# appnut

A path-based state engine for cross-platform apps, with its access control
and two example applications, verified with Verus.

- `src/` is the verified library:
  - `store`, `flux`, `topic`, `listing`, `text`: the state store (JSON
    bytes per path, ordered scans), MQTT-style topic patterns, change
    subscriptions and request routing.
  - `auth`, `rbac`, `jwt`: authenticators, permission patterns and role
    tables; `jwt` holds the calls into `jsonwebtoken` and `serde_json`.
  - `format`, `digest`, `embedded`: number formatting, password digests,
    and what the embedded development server computes.
  - `twitter`, `shop`: the TwitterFlux and ShopFlux applications: their
    requests, page states, roles, translations, demo data, the state
    transitions of the ShopFlux handlers, the server calls they make, and
    the handlers as steps (what to write, in order, and what to ask next).
- `app/` runs the library: a thread-safe engine with async handlers, the
  ShopFlux handlers over HTTP, the embedded server and the C interface.
- `tests/` exercises the library.
