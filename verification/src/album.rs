//! Albums: opaque payloads constructed by the API client.

use crate::same::Same;
use crate::track::Track;
use crate::utils::Image;
use std::sync::Arc;
use vstd::prelude::*;

verus! {

/// How an album was released.
#[derive(Clone, Copy, Debug, PartialEq, Eq, Structural)]
pub enum AlbumType {
    Album,
    Single,
    Compilation,
}

/// One album, with its cover art and track listing. Tracks are shared
/// handles: a track listed here and playing at the same time is one
/// instance.
#[derive(Clone, Debug, PartialEq)]
pub struct Album {
    pub id: String,
    pub name: String,
    pub album_type: AlbumType,
    pub images: Vec<Image>,
    pub tracks: Vec<Arc<Track>>,
}

impl Same for Album {
    open spec fn same_spec(self, other: Self) -> bool {
        self.id.same_spec(other.id) && self.name.same_spec(other.name) && self.album_type
            == other.album_type && self.images.same_spec(other.images) && self.tracks.same_spec(
            other.tracks,
        )
    }

    fn same(&self, other: &Self) -> (r: bool) {
        self.id.same(&other.id) && self.name.same(&other.name) && self.album_type
            == other.album_type && self.images.same(&other.images) && self.tracks.same(
            &other.tracks,
        )
    }

    proof fn same_refl(&self) {
        self.images.same_refl();
        self.tracks.same_refl();
    }
}

} // verus!
