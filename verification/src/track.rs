//! Tracks and the per-row rendering context.
//!
//! Track values are immutable once constructed and are shared across views
//! by reference-counted handles: the same logical track held by the playback
//! state, the row context and any list is the same shared instance, so
//! identity-based change detection stays cheap.

use crate::same::Same;
use crate::utils::AudioDuration;
use std::sync::Arc;
use vstd::prelude::*;

verus! {

/// The catalog identifier of a track.
#[derive(Clone, Debug, PartialEq, Eq, Hash)]
pub struct TrackId(pub String);

impl Same for TrackId {
    open spec fn same_spec(self, other: Self) -> bool {
        self.0.same_spec(other.0)
    }

    fn same(&self, other: &Self) -> (r: bool) {
        self.0.same(&other.0)
    }

    proof fn same_refl(&self) {
    }
}

/// One playable track; an opaque payload constructed by the API client.
#[derive(Clone, Debug, PartialEq)]
pub struct Track {
    pub id: TrackId,
    pub name: String,
    pub duration: AudioDuration,
}

impl Same for Track {
    open spec fn same_spec(self, other: Self) -> bool {
        self.id.same_spec(other.id) && self.name.same_spec(other.name)
            && self.duration.same_spec(other.duration)
    }

    fn same(&self, other: &Self) -> (r: bool) {
        self.id.same(&other.id) && self.name.same(&other.name) && self.duration.same(
            &other.duration,
        )
    }

    proof fn same_refl(&self) {
    }
}

/// The denormalized context threaded into list rendering: the currently
/// playing item and the set of saved track ids, kept in sync with their
/// sources of truth by the same root mutation, so that a track row can show
/// "is playing" and "is saved" without reading the whole tree.
#[derive(Clone, Debug, PartialEq)]
pub struct TrackCtx {
    /// Mirrors the playback item; updated atomically with it.
    pub playback_item: Option<Arc<Track>>,
    /// The ids of the user's saved tracks, each listed once.
    pub saved_tracks: Vec<TrackId>,
}

impl TrackCtx {
    /// Whether a track with the given characters as id is among the saved
    /// tracks.
    pub open spec fn has_saved(self, id: Seq<char>) -> bool {
        exists|j: int| 0 <= j < self.saved_tracks@.len() && self.saved_tracks@[j].0@ == id
    }

    /// Whether `id` is saved; drives the row's "saved" mark.
    pub fn is_track_saved(&self, id: &TrackId) -> (r: bool)
        ensures
            r == self.has_saved(id.0@),
    {
        let mut i: usize = 0;
        while i < self.saved_tracks.len()
            invariant
                0 <= i <= self.saved_tracks@.len(),
                forall|j: int| 0 <= j < i ==> self.saved_tracks@[j].0@ != id.0@,
            decreases self.saved_tracks@.len() - i,
        {
            if self.saved_tracks[i].0.eq(&id.0) {
                return true;
            }
            i = i + 1;
        }
        false
    }

    /// Whether `track` is the currently playing item, judged by its id;
    /// drives the row's "playing" mark.
    pub fn is_track_playing(&self, track: &Track) -> (r: bool)
        ensures
            r == (match self.playback_item {
                Some(playing) => playing.id.0@ == track.id.0@,
                None => false,
            }),
    {
        match &self.playback_item {
            Some(playing) => playing.id.0.eq(&track.id.0),
            None => false,
        }
    }
}

impl Same for TrackCtx {
    open spec fn same_spec(self, other: Self) -> bool {
        self.playback_item.same_spec(other.playback_item) && self.saved_tracks.same_spec(
            other.saved_tracks,
        )
    }

    fn same(&self, other: &Self) -> (r: bool) {
        self.playback_item.same(&other.playback_item) && self.saved_tracks.same(
            &other.saved_tracks,
        )
    }

    proof fn same_refl(&self) {
        self.playback_item.same_refl();
        self.saved_tracks.same_refl();
    }
}

} // verus!
