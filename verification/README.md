# Doubao voice input

A push-to-talk voice input tool: hold or tap a key, speak, and the recognised text appears in the
focused window while you speak.

The decisions of the tool live in a Rust library whose behaviour is stated in contracts and proved
with [Verus](https://github.com/verus-lang/verus). Everything that touches the machine (files,
keyboard, clipboard, network, microphone) lives in the application around it.

## Layout

| Path | Content |
|------|---------|
| `src/config.rs` | settings, their defaults, migration of old configuration files |
| `src/keys.rs` | key names, combinations, targets of the keyboard hook |
| `src/hotkey.rs` | combinations, double taps, taps and holds |
| `src/inserter.rs` | insertion by simulated keys and through the clipboard, as a step machine |
| `src/desktop.rs` | a model of the focused window and the clipboard, and what insertions do to it |
| `src/asr.rs` | connection request, opening of a session, audio frames, responses |
| `src/voice.rs` | incremental text updates, the session, the controller, hotkey events |
| `src/probe.rs` | measurements of a session |
| `src/text.rs`, `src/time.rs` | text primitives and clock arithmetic |
| `tests/` | tests of the library |
| `app/` | the application around the library |

## How the pieces meet

The library never waits and never performs I/O. A text insertion hands out one step at a time
(`Step`) and takes the reply to it (`Reply`); a session takes what was received and the time, and
answers with an update of the text or with its end; the hotkey detectors take key events and the
time. Times are nanoseconds of a monotonic clock, settings are in milliseconds.

The central theorem is `voice::dictation_writes_what_was_recognised`: if every update succeeds,
and no NUL character has to go through the clipboard (where it would end the text), the text before
the cursor is what was there at the beginning, followed by the settled texts in their order and the
latest text that may still change, and the clipboard holds the text again that it held.
