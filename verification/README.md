# bajam

A small server that shows the position of a bike trip on a map: a phone
posts heartbeats (latitude, longitude, a description, a picture), and
visitors see the last position and the history.

- `src/` is the verified library (Verus): session keys and bearer-token
  authentication (`auth`, `token`), registration and login (`account`),
  the heartbeat history and map page (`heartbeat`), picture upload checks
  (`upload`), configuration (`config`) and timestamps (`time`).
- `app/` is the server around it: axum routes, the SQLite queries (sqlx),
  the HTML template, command-line parsing and the background cleanup task.
- `tests/` runs the library on concrete values.
