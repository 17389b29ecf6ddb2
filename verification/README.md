# data_explorer

A browser explorer for SQLite files: the page lists the tables of a loaded
database, shows a table's first rows, and runs SQL typed in an editor; a web
worker holds the database in an in-memory file system.

`src/` is the verified core (Verus):

- `protocol` — the messages between page and worker, their views, and the
  text of each worker error;
- `state` — the page state and its view;
- `client` — how the page takes each worker reply and which requests its own
  actions send;
- `worker` — the worker's bookkeeping (opened file, open handle) and how the
  outcome of each SQLite / file-system step becomes a reply;
- `import` — the sanity check applied to an image before import;
- `view` — what the panels show, decided from the state;
- `text` — string helpers;
- `laws` — properties that span several operations.

`app/` holds the leptos components, the worker's message loop and the calls
into SQLite, serde and the browser, around the verified core.
