# airdo

airdo keeps a proxy application healthy: it reads its configuration, turns an
airport subscription into the configuration of the proxy core (mihomo or
sing-box), starts the core or finds an external one, health-checks every
proxy node on a schedule, and serves the results over a small web API.

- `src/` is the verified library (Verus): the configuration rules, the
  subscription conversions (Clash to sing-box, universal share links to
  either), the node filter, the controller request paths, the shell scripts
  that start the core, the health-check records and the properties that hold
  across them (`src/laws.rs`).
- `app/` is the program around it: files, HTTP, the database, the scheduler,
  the web server, and the serde forms of the library's types.
- `tests/` runs the library on concrete inputs.
