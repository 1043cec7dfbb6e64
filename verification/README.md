# hedwig

A menu-bar watcher that tells you how many unread mails your Gmail inbox holds.

- `src/` is the verified library (Verus): the configuration rules (`config`),
  the unread-count extraction from Gmail's Atom feed (`gmail::parse`), the HTTP
  client and its pool (`gmail::client`, `pool`), the cron-driven delay until
  the next check (`schedule`) and the decisions of the background loop
  (`backend`).
- `app/` is the program around it: tray icon, logging, file watching, reading
  the configuration file, the HTTP request and the desktop notifications.
- `tests/` runs the library on concrete inputs.
