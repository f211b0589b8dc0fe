# Capture Card Viewer — verified core

A viewer for USB capture cards: it shows the card's video and plays its
audio. This crate holds the viewer's logic as a library whose behaviour is
stated in Verus contracts and proved; `app/` is the program around it
(window, devices, threads, files).

Library modules (`src/`):

- `audio::io` — ALSA alias priorities, merging of aliases that share a
  device name, device listings, the choice of device lookups.
- `audio::config`, `audio::playback` — the devices of a playback session,
  stream health, stream errors, chunking and channel layout.
- `video` — finding the saved camera, classifying camera errors.
- `watchdog` — restarting failed streams with a doubling, capped backoff.
- `state` — the viewer's phases, what a move between them entails, the
  start-up decision.
- `session` — key bindings, the settings window, the first-launch form,
  the error screen, what is saved on exit, the texts of the device boxes.
- `power` — keeping the machine awake while a stream plays.
- `logger` — log file names and rotation, crash texts.
- `errors`, `settings`, `text` — errors and notices, the persisted
  settings, character-level helpers.

`tests/` exercises the library on concrete values.
