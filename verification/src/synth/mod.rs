//! The synth engine's discrete state: play modes, voice bookkeeping,
//! waveform and filter selections.
pub mod delay;
pub mod envelope;
pub mod filter;
pub mod lfo;
pub mod oscillator;
pub mod synth;
pub mod wavetable;
pub mod wt_manager;
