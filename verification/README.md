# transport

The transport between a core server and its periphery agents, verified with
Verus: message frames, the Noise login, the bookkeeping of connections,
requests, and terminals.

- `src/` is the library. It opens no socket and never sleeps: what alternates
  with the outside is a function from a state and an event to the next state and
  an action. Contracts speak of the views of states and actions; the functions
  named `law_*` state what holds across them.
- `app/` is the programs around it: the periphery agent, the core server and the
  key command. They perform the actions and report the events.
- `tests/` runs the library on concrete values.

What is taken on trust stands next to the call that it is about, with a comment
that names the outside function: `snow` (the handshake), `base64`, `sha1`,
`sha2`, `rand`, `uuid`, `url`, `urlencoding` and the header map of `axum`.

A private key of more than 32 bytes must not be handed to the handshake;
`noise::private_key_fits` tells.
