# rdl-tray

System tray companion for remote-dl: watches the Windows clipboard for
http(s) URLs and offers to queue them with the configured remote-dl worker.

Layout:

- `src/` — the verified library (Verus):
  - `clipboard` — clipboard text from its UTF-16 buffer, first URL in a text
    (via the `regex` crate), trailing-punctuation stripping;
  - `tray_state` — the window's decisions: state (watching, pending URL, last
    URL) and the action each window message leads to;
  - `config` — the configuration shared with the `rdl` CLI, token decoding
    (via the `base64` crate);
  - `text`, `wide` — trimming, truncation, UTF-16 encoding for Win32;
  - `error` — the error type.
- `app/` — the Windows program: window, message loop, clipboard access,
  notification-area icon and balloons, reading the config file, talking to
  the worker.
- `tests/` — tests of the library.
