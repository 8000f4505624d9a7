# sary

A Discord moderation bot whose decisions are verified with Verus.

- `src/` is the verified library: the moderation command as a state machine
  (`moderation`), the lookup of a member from a command argument (`lookup`,
  `mention`), the rows written to the database (`records`, `events`), the
  framework hooks' replies (`hooks`), the statistics message (`stats`), the
  configuration (`config`) and decimal text (`text`).
- `app/` is the program around it: it reads the configuration, talks to
  Discord and PostgreSQL, and feeds the outcome of each action back to the
  library's state machines.
- `tests/` runs the library on concrete values.
