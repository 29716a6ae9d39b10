# rust_starter

A todo backend service whose decisions are proved with Verus.

- `src/` is the verified library: configuration schema, validation and
  reload rules; pagination; the store's error classification, transaction
  endings and field registry; the route and query-instrumentation attribute
  arguments; route paths and router layout; CORS policy;
  session-cookie parsing; health and status reports; todo service rules;
  the documentation page and the merged authentication API description;
  Argon2id password hashing.
- `app/` is the server around it: configuration files and their watcher,
  telemetry, the SeaORM store, authentication, handlers and middleware.
- `tests/` exercises the library on concrete values.
