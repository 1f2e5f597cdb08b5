//! Wavetable descriptions.
use vstd::prelude::*;

verus! {

/// Information about a wavetable that can be loaded.
#[derive(Clone, Debug)]
pub struct WtInfo {
    /// Index of the wavetable as used in the sound data.
    pub id: usize,
    /// True if the file exists.
    pub valid: bool,
    /// Name of the wavetable as shown in the UI.
    pub name: String,
    /// Wavetable filename, empty for an internal table.
    pub filename: String,
}

} // verus!
