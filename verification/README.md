# m3u8_downloader

Downloads a live HLS (m3u8) stream: it reads the master playlist, picks a
variant stream, polls its media playlist for new segments, loads them and
hands the data to an output file and, optionally, to the mpv player.

- `src/` is the verified library (Verus): command line values, URL handling
  over the `url` crate, playlist reading over `m3u8-rs`, the choice of the
  variant stream, the selection of new segments on each poll, the chunk
  timeout policy, the receiver lifecycle, the transfer loop, and the small
  decisions of logging, mpv and the output file.
- `app/` is the program around it: command line parsing with clap, HTTP with
  reqwest, the async stream plumbing with tokio, files, the mpv process and
  logging.
- `tests/` runs the library on concrete values.
