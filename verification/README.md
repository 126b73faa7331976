# enclave

The verified core of a mess-attendance service: members answer yes or no for
breakfast, lunch and dinner; lunch is served at the weekend only; members
answer for themselves, administrators for anyone.

- `src/` is checked by Verus: the data model (`model`), calendar dates
  (`calendar`, backed by `chrono`), text helpers (`text`), the meal and
  attendance rules (`meals`, `attendance`), account sign-up and sign-in with
  Argon2 password hashes and HS256 session tokens (`auth`), the store's row layout (`storage`), the
  HTTP answers (`api`) and the browser client's request handling (`client`).
  Sign-up and sign-in are written as steps: each step says what store access
  comes next, and the caller hands its outcome to the following step.
- `app/` is the program around it: the poem/poem-openapi server, the libsql
  store, the checking of incoming session tokens with `jsonwebtoken`, and the
  yew browser client.
- `tests/` runs the library on concrete values.
