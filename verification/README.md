# myvid

A video player: GStreamer decodes in a confined process, wgpu presents, iced draws the
chrome. What the player decides is a library, written and proved in Verus; what touches
the system is a thin program around it.

## Layout

- `src/` is the library. Every function states what it returns or changes, and Verus
  proves it.
  - `engine/` is decoding: subtitle cues, stream labels, which tracks play, seeking, the
    bus messages of a pipeline, clip export, the frame slot and the shared frame ring,
    the messages between the player and its decoder, both ends of that conversation, and
    the sandbox policy.
  - `render/` is presentation: which frames go to the GPU, and when.
  - `ui/` is the player itself: its state, what each key and each message does, what the
    window shows, and how the icons are drawn.
  - `launch.rs` reads the command line; `text.rs` holds the text functions the rest uses.
- `tests/` runs the library on concrete values.
- `app/` is the program: windows, sockets, shared memory, the pipeline, the GPU, and the
  sample processing, which is floating point.

Volumes are counted in percent, speeds in hundredths, and a place on the scrub bar or the
progress of an export in billionths.

## Laws

What holds of several functions together is a public proof function beside them, such as
`lemma_read_gives_back_write` (the shared ring), `lemma_newest_target_wins` (seeking),
`lemma_one_film_per_decoder` (isolation) or `lemma_player_stays_sound` (the player).

## Trusted items

The library trusts the standard library for a few functions on text and paths, and the
`landlock` crate for the rights that a version of its interface knows. Each is a small
wrapper or declaration whose comment says what is claimed of it.
