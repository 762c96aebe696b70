# boxpigma

The verified core of a terminal music player for the NetEase Cloud Music catalogue: the
state behind its pages, popups and prompts, the play queue, the rules it resolves a song into
a stream by, the local library's album order, and the small text and layout computations the
screens are drawn from.

## Layout

- `src/` — the library, written in Verus. Its functions carry `requires`/`ensures`
  contracts, and the laws the player keeps (a stale load never lands, the lookup of the queue
  agrees with a scan, the history stays capped, the transport buttons never overlap, ...) are
  public proof functions.
  - state: `command`, `login`, `notices`, `page`, `popup`, `prompt`, `tasks`, `settings`,
    `search`, `nav`, `navigation` (the breadcrumbs of the content view), `artist` (with its
    release dates and profile text), `pagination`, `text_input`
  - playback: `queue`, `source` (retry policy, the streaming chain and the resolution order as
    state machines, cloud-disk matching, URL extensions, the wait for a head start), `lyrics`,
    `exclusive`, `ring`, `pitch`, `player`, `seek`, `scan`, `disc`, `resample` (when the
    converter's tail is flushed)
  - slots that downloads land in: `avatar`, `mv`
  - text, cells and layout: `text`, `title`, `markup`, `cells`, `geometry`, `playerbar`,
    `lyrics_panel`, `seqs`, `wrap` (with the frame counter)
- `tests/` — the library's tests, run against the compiled crate.
- `app/` — what stands around the library: the floating-point audio analysis (FFT, pitch
  estimation, spectrum bands), the clocks the lyrics flow and the turning cover move by,
  the directory walk and tag reading of the local library, reading the machine's time zone for
  release dates, and copies of library types with serde and thiserror derives.

Outside crates called from the library: `url` (parsing a stream URL's path),
`unicode-width` (cell widths of characters), `time` (a release date in a given offset) and
`ratatui` (the layout solver that splits the player bar into rows and columns).
