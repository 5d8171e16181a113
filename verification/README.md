# waylyrics (verified core)

The decisions of the waylyrics lyric window, written in Verus and proved
against their contracts:

- `lyric`, `cache_flow`, `cache_path`: which lyrics are worth showing and
  caching, the steps of a cached lyric fetch, and where a track's cache file
  lies (an MD5 of the track's title, artists, album and length).
- `appearance`, `passthrough`, `actions`, `filter`, `theme`: font sizes and
  the labels' style sheet, click-through (input region, Windows style bits), the
  `set-label` and D-Bus arguments, the word filter, and theme and presets-folder selection.
- `portable`: the paths, environment and messages of the portable Windows
  launcher.
- `text`: hex and decimal writers used by the above.

`app/` holds the GTK program around this core: widgets, style providers,
colour arithmetic in floating point, file and D-Bus I/O, and the launcher's
process start. `tests/` runs the library on concrete values.
