# hexforge_companion

Verified core of a TFT desktop companion overlay, written in Verus.

- `src/` — the verified library:
  - `api` — API mode detection (Mock / Direct / Proxy) and the plan of each
    Riot API call (mock file or URL plus optional `X-Riot-Token`);
  - `commands` — player lookup results, error messages and the linked player;
  - `overlay` — panel hit-test rectangle and the cursor passthrough decision;
  - `process_watcher` — game attach/detach events and the fallback geometry;
  - `startup` — startup banner, release-mode warning, stored key;
  - `text` — decimal formatting and `i32` parsing.
- `app/` — the desktop shell (Tauri commands, SQLite, HTTP, OS queries).
- `tests/` — tests of the library.
