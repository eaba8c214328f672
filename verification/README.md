# agent_browser

Browser backends whose decisions are verified with Verus.

- `src/refs.rs`: element references, and how snapshots show them.
- `src/backend.rs`: what every backend offers.
- `src/camofox.rs`, `src/launch.rs`, `src/exchange.rs`: the backend that drives a
  Camofox server: its requests, its launch, and what it makes of the answers.
- `src/webdriver.rs`: the backend that drives a WebDriver client.
- `src/json.rs`, `src/codec.rs`: the calls into outside crates, each with the
  contract that is taken on trust.
- `src/text.rs`: text as a sequence of characters.

The library sends nothing and starts nothing. `app/` does: it performs the
requests and steps that the library plans, and reports what came back.
