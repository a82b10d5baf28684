# timer

A terminal dashboard with a clock, a pomodoro timer, a live weather scene and a music
player, all driven from the keyboard.

The crate is split in two:

- `src/` is the verified library. It holds the dashboard's state machines (mode
  switching and key handling, the pomodoro timer, the music player's queue and playback
  decisions, the `:` command line), the parsers for podcast feeds, M3U and PLS
  playlists, yt-dlp listings and station files, and the layout rules behind the drawing
  (Braille and half-block grids, progress bars, the weather scene's layers and
  geometry). Every function carries a contract that Verus proves; the properties that
  span several calls stand as `law_*` proof functions beside the code they speak of.
  Time reaches the library as milliseconds on a monotonic clock.
- `app/` is the program around it: argument parsing, the terminal, the clock, the
  network, the disk, the audio device, and the floating-point drawing. It asks the
  library what to do and does it.

`tests/` exercises the library on concrete values.
