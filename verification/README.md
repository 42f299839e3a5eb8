# hb

A websocket client whose connection lives on a worker thread, with the
worker's command dispatch, the connection actor's state and a timer for a
Dart host.

- `src/` is the verified library: the client handle (`ws`), the command
  protocol (`protocol`), the worker's decisions (`dispatch`), the actor's
  hooks and reported data (`client`, `store`), the timer's steps (`timer`),
  the error type (`error`) and the channel calls it rests on (`channel`).
- `app/` runs it on actix: the actor, the worker thread, page loading and
  the exported C functions.
- `tests/` exercises the library.
