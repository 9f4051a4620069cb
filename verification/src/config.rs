//! User configuration. The model treats it as an opaque substructure with
//! defaults supplied at construction; loading and saving happen elsewhere.

use crate::same::Same;
use vstd::prelude::*;

verus! {

/// Requested audio streaming quality.
#[derive(Clone, Copy, Debug, PartialEq, Eq, Structural)]
pub enum AudioQuality {
    Low,
    Normal,
    High,
}

/// User configuration carried in the state tree.
#[derive(Clone, Copy, Debug, PartialEq, Eq, Structural)]
pub struct Config {
    pub audio_quality: AudioQuality,
    pub cache_enabled: bool,
}

impl Default for Config {
    /// The configuration used until a stored one is loaded.
    fn default() -> (c: Self)
        ensures
            c == (Config { audio_quality: AudioQuality::Normal, cache_enabled: false }),
    {
        Config { audio_quality: AudioQuality::Normal, cache_enabled: false }
    }
}

impl Same for Config {
    open spec fn same_spec(self, other: Self) -> bool {
        self == other
    }

    fn same(&self, other: &Self) -> (r: bool) {
        *self == *other
    }

    proof fn same_refl(&self) {
    }
}

} // verus!
