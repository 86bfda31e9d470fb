# island_app

The music side of a desktop "island" widget: which player is in effect, what it is
playing, where the track is, and its lyrics, cover and details — with the KuGou player
integration (media session, ini samples, local `.krc` lyrics, DevTools session, and the
`libcef.dll` patch that opens it).

- `src/` is the library, verified with Verus: every function states its result in its
  contract, and the `law_*` proof functions state what holds across calls (the
  progress tracker's behaviour, the resolver's caches, the lyrics search order, LRC
  parsing and URL encoding, the DevTools worker, the deployment's safety).
- `tests/` exercises the library on concrete values.
- `app/` is the process around it: HTTP, the DevTools WebSocket, files, registry,
  processes and windows, threads, and the elevated helper. It performs the steps the
  library chooses and hands it plain values.

Modules: `text` (character-level string functions), `json` (documents as plain
values, parsed from text with serde_json), `net` (URL encoding), `b64`, `lyrics` (LRC parsing, relevance, NetEase and QQ
Music responses, the search over sources), `kugou` (KuGou's search, lyric service,
ini, `.krc` files, status), `kugou_cdp` (the DevTools source and its worker),
`kugou_deploy` (the patch table, classification and the deployment flow), `provider`,
`resolver` (caches and fetch decisions), `music` (progress tracking, source selection,
the state shown, controls), `settings`, `error`.
