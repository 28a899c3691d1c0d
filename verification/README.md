# file_transfer

The verified core of a desktop client that keeps a local folder in step with
a synchronisation server.

- `src/` is the library, checked by Verus:
  - `types` — settings, transfer records, login tokens;
  - `paths` — paths compared by their components;
  - `transfers` — the record of uploads and downloads, one per path;
  - `ignore` — the paths the client is writing itself and must not react to;
  - `text`, `json` — string replacement, slash trimming, decimal text, and
    compact JSON objects;
  - `api` — the requests sent to the server;
  - `synchronizer` — socket address and handshake, session identifier,
    watcher slot, file-system event decisions, and the actions for changes
    found on either side;
  - `client` — window routing, settings checks, login outcome, tray actions.
- `app/` is the desktop program around it: windows, threads, the watcher,
  the socket, HTTP and the disk.
- `tests/` runs the library on concrete values.
