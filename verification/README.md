# tomato_novel_downloader

The verified core of the Tomato Novel Downloader's interfaces, written in
Verus. Every function in `src/` carries a contract that Verus proves, but
one: `text::push_char`, which appends a character with `String::push`, is
trusted, and its contract (the string gains that character at its end) is
taken as given.

- `text` — characters, trimming, ASCII case, splitting, UTF-8 byte lengths,
  decimal numbers as `FromStr` and `Display` read and write them.
- `prewarm_state` — whether the start-up IID prewarm runs, and its failure
  message.
- `release_notes` — the change-log preview of the update prompts.
- `config` — the settings, output formats and book-name fields.
- `noui_config` — the settings editor of the plain console.
- `config_model` — the settings page of the full-screen interface.
- `novel_updates` — the book labels and choices of the update menus.
- `cli` — start-up routing, console commands, the download history screen:
  its lines and how its filter changes.
- `about` — the About page: its text, keys, buttons and mouse.

`app/main.rs` is the console program around the library: command-line
switches, the prewarm thread, terminal set-up and the menus' input and
output. The two floating-point settings live there too.
