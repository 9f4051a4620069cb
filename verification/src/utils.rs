//! Small value types shared across the tree.

use crate::same::Same;
use vstd::prelude::*;

verus! {

/// A playback position or a track length, in whole milliseconds.
#[derive(Clone, Copy, Debug, PartialEq, Eq, Structural)]
pub struct AudioDuration {
    pub millis: u64,
}

impl Same for AudioDuration {
    open spec fn same_spec(self, other: Self) -> bool {
        self.millis == other.millis
    }

    fn same(&self, other: &Self) -> (r: bool) {
        self.millis == other.millis
    }

    proof fn same_refl(&self) {
    }
}

/// A cover image: where it is served from and its pixel size.
#[derive(Clone, Debug, PartialEq)]
pub struct Image {
    pub url: String,
    pub width: u64,
    pub height: u64,
}

impl Same for Image {
    open spec fn same_spec(self, other: Self) -> bool {
        self.url.same_spec(other.url) && self.width == other.width && self.height == other.height
    }

    fn same(&self, other: &Self) -> (r: bool) {
        self.url.same(&other.url) && self.width == other.width && self.height == other.height
    }

    proof fn same_refl(&self) {
    }
}

} // verus!
