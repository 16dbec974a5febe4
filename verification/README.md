# Musico

The verified core of Musico, an offline music player with a recommendation
engine.

`src/` is the library, proved with Verus:

- `player` — the player's state and how it answers every user action, engine
  event and background result (`AppState::update`), as effects to carry out.
- `queue`, `playback` — the play queue with its history, and the decisions of
  the decoder thread (`step`), with the listening clock.
- `lyrics`, `scanner`, `catalog`, `updater`, `paths`, `config` — LRC parsing,
  audio-file detection, file-name cataloguing, release checks, paths and
  settings.
- `playlists`, `stats`, `session`, `recommend` — smart playlists, listening
  statistics, the session memory of the recommender, and its whole-number
  decisions (when it refuses, which songs it may offer, what counts as a
  skip).
- `timer`, `crossfade`, `eq`, `modes`, `mpris` — the sleep timer, crossfade
  windows, equalizer presets, modes and the media-control answers.

`app/` is a console front end: settings file, database, decoding, and the
floating-point signal processing and scoring. `tests/` exercises the library.
