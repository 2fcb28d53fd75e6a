# yabook

A table-booking service (a booking server and a chat bot) whose logic is a
verified library.

- `src/` — the library, verified with Verus:
  - `db` — tables, users and bookings, and reading them from database rows;
  - `handlers` — the booking, table and user handlers and the error type
    that failed requests are answered with;
  - `server` — routing of requests by method and path, reading of the query
    string and its integer parameters, the database settings, the status
    document;
  - `telegram` — reading chat messages (commands, mentions, entity texts)
    and wording the bot's notes and replies; the client's message types.
- `tests/` — tests of the library on concrete values.
- `app/` — the programs: the HTTP server with its PostgreSQL database, and
  the chat bot (`backend` or `telegram` as first argument).
