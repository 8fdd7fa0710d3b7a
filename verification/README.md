# story_api

A REST service in which users write stories and comment on them, backed by
Postgres.

- `src/` is the verified library. `model` gives the database a mathematical
  model (three tables keyed by serial ids) and the meaning of every statement
  and query; `statement` holds the SQL that the service sends, with its bound
  parameters; `plan` says which statements each operation runs and in what
  order (deletions cascade by hand); `laws` proves what those plans do to any
  database; `number`, `form` and `endpoint` read a submitted form into a
  request; `handler` decides, for each request, the statements, the
  notification and the reply.
- `app/` is the Rocket server: it reads multipart bodies, runs the planned
  statements against Postgres with sqlx, starts the notification process and
  encodes rows as JSON.
- `tests/` runs the library on concrete values.
