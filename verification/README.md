# sapa_backend

The backend of a stream roulette: viewers queue up for a spin of a wheel
through chat commands or channel-point rewards, admins configure the wheel,
the rules and the actions, and a widget shows the spins.

`src/` is the library, written in Verus and verified: every public function
carries a contract stating what it returns or changes.

- `queue`, `catalog`, `user`, `admin`, `session`, `rules`, `action_store`,
  `credentials`: in-memory repositories and services, with their
  invariants (ordered ids, unique keys) and laws (one spin at a time, the
  last root admin stays, a login ticket is used once).
- `roulette`, `random`, `events`: drawing the slot of a spin by weight,
  starting the spin, the random values behind rolls and secrets, and the
  server-sent events that announce spins.
- `rule_service`, `user_service`, `session_service`: the checks rules,
  users and logins go through before the repositories are touched.
- `config`, `store`: runtime and static settings, their validation, and the
  store that persists and applies updates.
- `action`, `executor`: chat-reply templates and what an action does when
  its rule fires.
- `auth`: the admin side of the Twitch OAuth flow and its CSRF tickets.
- `web`, `ws`, `api`: decisions and message shapes of the HTTP layer and of
  the widget's WebSocket protocol.
- `text`, `clock`, `seqs`: shared text operations, timestamps and sequence
  facts.

`app/` is the server around the library: environment, shared state, HTTP
routes. `tests/` exercises the library.
