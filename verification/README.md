# workspace_api

Request handling of a collaborative workspace service: workspaces and their members, collaborative
objects, pages, databases, quick notes and what is published of them.

The service stands between its clients and the services that store, guard and synchronize their
work. `src/` holds what it decides, verified with Verus. `app/` is the HTTP service around it: it
takes requests apart, asks the other services what the library wants to know, and writes replies.
`tests/` runs the library on concrete requests.

## Layout of the library

| Module | What it holds |
| --- | --- |
| `routes` | the table of routes: patterns, methods and handlers, in the order of matching |
| `workspaces`, `members`, `collabs`, `pages`, `databases`, `publishing`, `comments`, `quick_notes` | the plan for each request: checks, operation, reply |
| `plan`, `operation`, `reply`, `session` | what plans are made of, and how one is carried out |
| `create_collab`, `batch`, `full_sync`, `realtime`, `publish` | requests that are served in stages |
| `frames`, `ids`, `clock`, `compression`, `text`, `user`, `error` | what these are built on |

## What is proved

- A handler's plan is exactly the steps, the operation and the kind of reply that its contract
  names, and whatever a step or an operation takes is known by the time it is asked for.
- A failure ends a request, an operation comes after every check of its plan, and every request
  ends. A request that first looks up its user, and does so once, is served for that user alone.
  Nothing is committed that was not written before, and a request that ends in a commit is replied
  to exactly when the commit succeeded (`session`).
- Framed payloads are read back as they were sent, however the body is cut into pieces (`frames`).
- Published items are read back as they were sent, and reading a body stage by stage, with each
  metadata parsed on the way, gives what the body says (`publish`).
- Messages and updates may be sent plain or compressed: what comes of them is the same (`realtime`,
  `full_sync`).
- No two identifiers share a text, and in databases that are named by identifiers no two keys are
  hashed as the same message (`ids`).
- A frame of a batch is kept only if it passed every step (`batch`).
- No route of the table stands behind an equal one, and every handler has a route (`routes`).

## What is trusted

`sha2`, `uuid`, `chrono`, `zstd` and `tokio-tungstenite` are called through small functions whose
contracts are taken on trust. Each of them names the function it calls and says what is claimed
of it: see `ids`, `clock`, `compression` and `realtime`.
