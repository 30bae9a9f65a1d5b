# cmdb

A verified library for the CMDB backend and its cloud-API companion: the
decisions their HTTP endpoints make, proved with Verus.

- `src/` is the library. It holds the JSON document model (`json`), text
  helpers (`text`), the table catalogue (`table`), query plans (`query`),
  the answer envelopes (`mailman`), the registration body sent to the master
  (`registry`), and the two subsystems: `cmdb` (filter cleaning, table
  dispatch, table models, services, server configuration) and `cloud_api`
  (account filter, account model and services, the script runner).
  Calls into `chrono` and `uuid` stand behind small trusted wrappers in
  `clock` and `ident`.
- `tests/` runs the library on concrete values.
- `app/` is the server around the library: configuration file, database
  (Postgres through diesel), HTTP routes (actix-web), processes and
  directory listings. It converts between serde_json values and the
  library's JSON model and performs the work the library decides on.
