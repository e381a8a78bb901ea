# translate_me

The core of a floating desktop translator, verified with Verus.

- `src/` is the library: settings and their start-up migration, hotkey
  checking (through `global_hotkey`), the chat request for an
  OpenAI- or Anthropic-compatible API and the reading of its reply (through
  `serde_json`), and the overlay window's placement and show/hide steps.
  Every function there carries a contract that Verus proves, except the
  few small wrappers (marked `#[verifier::external_body]`) that call
  `global_hotkey` and `serde_json`: their contracts are trusted, and each
  wrapper's doc comment says what it claims of the call.
- `app/` is the desktop shell (Tauri commands, HTTP, settings file, tray,
  global shortcut, AppKit calls). It performs what the library decides.
- `tests/` runs the library on concrete values, including checks of its
  text functions against the standard library.
