# Shelf

A desktop shelf for shell commands and scripts, kept in groups.

- `src/` is the library, verified with Verus: the settings and how they are
  loaded and changed, the validation of groups and items before they are
  stored, the special groups, search patterns, and the dashboard and settings
  screens as state machines that turn a message into a new state and a
  request for outside work.
- `app/` is the program around it: the window (iced), the SQLite database
  (sqlx), the settings file (serde_json) and the data directory. It carries
  out the requests that the library returns and hands their outcomes back as
  messages.
- `tests/` runs the library on concrete values.
