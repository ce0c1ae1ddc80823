# hotdownloader

The core of the HotDownloader API server, written in Verus: every function in `src/` carries
a contract that Verus proves.

- `src/` — the verified library:
  - `json`, `text`, `paths`: a JSON model and the decoding of JSON text into it (through
    serde_json), character-level string helpers, and Unix path operations (`join`,
    `file_name`, `file_stem`, `extension`) with exact specifications.
  - `storage`: string values kept under keys of the data document (`data.json`), with the
    read-after-write law.
  - `ctx`: the application context and the event history replayed to new subscribers
    (the last 256 events, oldest first).
  - `download`: target paths, naming templates, the opening of the target file (a state
    machine driven by the caller), lyric files, and song tagging through lofty.
  - `commands`: settings, history, tasks (including the search for a free file name),
    files and notifications.
  - `api`: command names, the `/api/invoke` answer envelope, `/api/files` checks and the
    `Content-Disposition` header, `/api/info`.
  - `utils`: file names from templates, random GUIDs, the decryption switch.
- `app/` — the server around the library: axum routes, file and network I/O, the encoding
  of JSON text with serde_json, the broadcast channel for live events, and audio decryption.
- `tests/` — tests of the library on concrete values.

Trusted items (contracts believed without proof) are marked `#[verifier::external_body]` or
`#[verifier::external_type_specification]`; each names the outside function it calls.
