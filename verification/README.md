# messenger_core

The rules of a messenger backend, written in Rust and verified with Verus: one-time codes and
their brute-force protection, rate limits, authentication of requests, WebSocket tickets and
connections, call signaling, phone hashes and their migration, and errors.

* `src/` is the verified library. It does no input or output: a function says what is to be done
  (a command for the store, an event to publish, something to wait for), and another one takes
  what came of it.
* `app/` is the server: it runs the commands on PostgreSQL and Redis, serves HTTP and WebSockets
  with axum, and hands what came of it back to the library.
* `tests/` runs the library on concrete values.

What is taken on trust is small: the hash functions, random numbers, identifiers and the clock
come from outside crates, each behind one function whose comment says what is claimed of it. The
two scripts that the store runs are text; `otp_record` and `rate_limit` hold verified functions
that do the same to the keys of one code or one window.
