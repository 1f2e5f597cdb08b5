//! Verified core of a subtractive synthesizer: parameter tables, controller
//! mappings, MIDI message decoding, voice allocation, the parameter-selection
//! state machine and a few small data structures.
pub mod canvas;
pub mod ctrl_map;
pub mod filter;
pub mod midi_handler;
pub mod modulation;
pub mod param_selection;
pub mod parameter;
pub mod ringbuffer;
pub mod sound;
pub mod synth;
pub mod tui;
