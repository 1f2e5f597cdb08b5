# Yazz - Yet Another Subtractive Synth

A subtractive software synth with a terminal user interface, in two parts:

- `src/` is the `yazz` library, written in Verus and proved against its
  contracts: the parameter menus and their value ranges, the user interface
  state machine and value entry, the controller mappings, the MIDI decoder
  and message routing, voice allocation and the key stack, envelope phases,
  the delay line positions, the ring buffer, the drawing canvas and the
  tables that connect menu entries to the sound data. Laws that relate
  several functions are stated as public proof functions next to them.
- `app/` is the program around it: command line, MIDI input (midir), audio
  output (cpal), the terminal (termion), files (serde_json), and the signal
  processing, which works on floating point samples and therefore stays
  outside the verified library. It calls the library for every decision
  listed above.

`tests/` exercises the library on concrete values.
