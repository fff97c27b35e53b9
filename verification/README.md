# rust_web_starter

A small todo web service (Axum, Diesel on SQLite, utoipa), split in two:

- `src/` is the library, each function with its contract proved: reading the configuration
  (`config`), trimming and splitting text (`text`), the checks on titles and
  pagination and the outcome of each todo operation (`todos`), the error
  responses and log events (`error`), the health answers (`health`), the
  CORS policy and request-id field (`telemetry`), and the database path
  (`db`). Proof functions named `lemma_*` state the laws that hold across
  these functions.
- `app/` is the server: environment, database pool and queries, routes,
  tower layers and logging. It calls the library for every decision.

`tests/` exercises the library on concrete values.
