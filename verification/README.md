# fluxbooks

The desktop client of FluxBooks queues documents for upload to the document
server, uploads them in chunks (resuming where an earlier attempt stopped),
starts an embedded PostgreSQL server and the bundled backend, and relays
bank-link requests to that backend.

`src/` is the library, verified with Verus:

- `chunking` — how a file is cut into 5 MiB chunks: the plan recorded when
  it is queued and the slices sent when it is uploaded, and why they agree.
- `records` — upload and chunk records, their statuses, the rows recorded
  for a queued file, and which uploads a retry picks up.
- `queue` — identifiers and names of queued files, and the device identifier.
- `parts` — the parts of a multipart upload and their stable ordering.
- `session` — one upload attempt as a state machine, with its model;
  `session_laws` — what every attempt keeps (progress, coverage, resends).
- `plaid`, `progress` — backend URLs, request errors, progress reports.
- `startup`, `orchestration` — paths, arguments and environment of the
  bundled services, and the order, waits and one-time initialisation of
  the startup.

`app/` is the Tauri application around it: the window commands, the SQLite
queue, HTTP requests, processes and the clock.
