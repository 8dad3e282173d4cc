# babblebot

The decisions of a Twitch/Discord chat bot's dashboard and Discord handler,
verified with Verus.

- `src/` is the verified library. Each dashboard endpoint (`web.rs`) and the
  Discord message handler (`discord.rs`) is a state machine: it starts from
  the request, asks for one piece of outside work at a time (a redis read or
  write, a Twitch call, the clock), and is handed back what that work gave.
  `keys.rs` holds the redis keys and Twitch endpoints, `store.rs` the writes
  and a model of what redis holds, `laws.rs` what holds across endpoints
  (for instance, that a channel that signed up can log in with its password).
  `secret.rs`, `pattern.rs` and `header.rs` call bcrypt, regex and reqwest.
- `app/` is the server around it: rocket routes, the Discord event handler,
  redis, Twitch and configuration I/O, and the serde copies of the data types.
- `tests/` runs the library on concrete values.
