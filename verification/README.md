# Kitty Media

A service that streams YouTube videos through ffmpeg and yt-dlp and caches them, with its
decisions verified in Verus.

- `src/` is the verified library: which request paths name a video, what to ask yt-dlp
  and how to read its answers, which reply each request gets, how download slots are
  claimed and given back, how a stream and its cache file progress, and how settings are
  read.
- `app/` runs the service: the HTTP server (actix-web), the embedded Python interpreter
  running yt-dlp (pyo3), ffmpeg processes, the file system and the environment. It asks the
  library what to do and reports back what happened.
- `tests/` exercise the library on concrete values.
