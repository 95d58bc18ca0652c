# linkwithmentor

The rules of the LinkWithMentor services (API gateway, chat, meetings,
notifications, analytics) as a library verified with Verus, and the
programs that run them.

- `src/` is the library. Each public function states what it returns or
  changes in `requires` / `ensures`, over spec functions and views, and
  Verus proves it. Public `proof fn law_*` items state properties that
  span several operations. Calls into outside crates (chrono, sha2,
  base64, uuid, handlebars, icalendar, dashmap, serde_json) stand behind
  small trusted items whose doc comments say what their contracts claim.
  - `gateway/`: routing, per-path authentication rules, rate limiting,
    request screening, CSRF tokens, the circuit breaker and health of
    downstream services, alerts, caching and batching rules, and the
    request handler as a state machine.
  - `chat/`: connections, rooms, typing and presence in concurrent maps,
    message rules, events between instances, group chats.
  - `meetings/`: scheduling rules, whiteboards, live collaboration and its
    connections, calendar exports, session e-mails.
  - `notifications/`, `analytics/`: settings, templates, delivery plans,
    dashboards and report rules.
  - `text.rs`, `time.rs`, `env.rs`, `table.rs`: strings, instants, the
    environment snapshot that settings are read from, and a table keyed by
    text.
- `tests/` runs the library on concrete values.
- `app/` is the service binary: HTTP and WebSocket servers, Postgres,
  Redis, e-mail and JWT handling, and everything computed with floating
  point. It hands the library plain values and acts on what comes back.
