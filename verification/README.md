# spotatui core

The decision-making core of a multi-source terminal music player (Spotify,
local files, Subsonic, YouTube, internet radio), written in Verus: every
function in `src/` carries a contract that Verus proves.

## Layout

- `src/` — the verified library.
  - `format.rs`: playbar/title format templates (parse and render).
  - `queue.rs`, `queue_menu.rs`, `queue_engine.rs`, `decision.rs`: the
    native cross-source queue: item classification, the Queue screen's
    editing keys, the playback engine's routing and resume plans, and the
    end-of-track decision table.
  - `app.rs`: the interface state the key handlers work on, list
    navigation, and the outboxes (events for the playback side, requests for
    the interface shell).
  - `search_results.rs`, `album_tracks.rs`, `recently_played.rs`,
    `local_browser.rs`, `dialog.rs`: key handlers, each specified as a
    relation between the state before and after a key.
  - `columns.rs`: configurable table columns and their widths.
  - `youtube.rs`, `local_playback.rs`, `spotify.rs`: per-source routing and
    plans; `ids.rs`: Spotify id/URI parsing through `rspotify`.
  - `search_view.rs`: the text of the search screen's rows and boxes.
  - `persisted.rs`, `first_run.rs`, `radio.rs`: session records, the
    first-run picker's answers, radio station records.
- `tests/` — tests of the library on concrete values.
- `app/` — the parts that touch files, the terminal, the network and the
  audio output (session file, radio stream, Spotify web API, drawing,
  prompts, player transport), handing plain values to the library; the
  queue, YouTube and local-file drivers carry out the library's routing and
  plans against the output devices.

Laws that span several operations are public proof functions named
`law_*`.
