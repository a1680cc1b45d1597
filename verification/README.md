# scheduler

A service that stores messages to be delivered at a given time and, when the
time comes, carries out the action each message describes: writing to the log,
sending an HTTP request, or publishing to an SNS topic.

- `src/` is the verified library: decoding of action attributes from
  JSON with the error messages clients see, the action and message types, the
  decisions of the delivery loop (when to look for due messages, when to wake
  up), the replies of the creation endpoint, and the settings.
- `app/` is the program around it: HTTP server, database access, channels and
  timers, and the calls that carry out actions.
- `tests/` exercises the library on concrete values.
