# klub_events

The verified core of KlubEvents, a small web application where members browse
events, sign up, sign in and reserve seats.

- `src/` is the library, verified with Verus. It holds the records and forms
  (`models`), the cookie and reply model (`web`), the cookies of a request:
  finding the session, storing and removing cookies (`session`), password hashing through `bcrypt`
  (`password`), identifier text through `uuid` (`ids`), text helpers (`text`),
  and the decisions of every request handler (`handlers`, `api`): each takes
  what the database returned and says what to answer or what to do next.
- `app/` is the program around it: the `axum` routes, the `sqlx` queries, the
  `askama` pages and the `serde` forms and session encoding. It needs the
  `templates/` directory of pages and a PostgreSQL database.
- `tests/` runs the library on concrete requests.
