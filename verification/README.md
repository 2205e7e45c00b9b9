# spotify_lyrics_tui

A terminal view of romanized lyrics for the track Spotify is playing,
following the song line by line.

- `src/` is the verified library: the LRC line grammar (`lrc`), lyrics
  processing and romanization (`lyrics`), the data model (`models`), the
  lyrics view's choice of lines (`widgets`), the media watcher's decisions
  (`media`), the front end's state machine (`app`), text helpers (`text`) and
  the cross-function properties (`laws`).
- `app/` is the program around it: the terminal, the event loop, the HTTP
  request to lrclib, and the Windows media session (built on Windows only).
- `tests/` runs the library on concrete values.
