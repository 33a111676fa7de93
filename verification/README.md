# student_portal

The decision logic of a small student portal backend (sign-up with an
e-mailed code, e-mail verification, login with a session cookie, password
reset, and the course page), verified with Verus.

- `src/` — the library. Each request handler is a state machine
  (`home`, `signup`, `email_verification`, `login`, `password_reset`): a
  step function takes the current state and the event that arrived (a
  submitted form, the result of a database query, of a sent mail) and
  returns the next state and the action to carry out (a query, a mail, or
  the reply). Its contract is a spec function over views. Password hashing
  (bcrypt), code drawing (rand), session tokens (uuid) and the clock and
  minute arithmetic (chrono) are called from the step functions through the
  trusted items in `src/external.rs`. `src/laws.rs` proves what holds across
  steps and machines.
- `app/` — the actix-web server: it reads requests, runs the machines,
  performs the database (sqlx) and mail (lettre) actions, and writes the
  replies.
- `tests/` — tests of every step, the boundaries of code expiry, and whole
  journeys across the machines.
