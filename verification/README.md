# ai_task_manager

The data rules of a desktop task manager whose tasks, complex task flows, execution
logs and settings live in a local SQLite database.

- `src/` is the verified library: the records, the checks that refuse bad input, the
  rows that each command writes (with their defaults), the order in which listings
  present rows, timestamps and log ids, the database location, and the answer to a
  lock request.
- `app/` holds the Tauri commands and the lock that serialises them: they open the database, run the SQL statements with
  the values the library computes, and convert records to and from their serialised form.
- `tests/` runs the library on concrete values.
