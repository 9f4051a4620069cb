//! Application state model for a desktop media-player client.
//!
//! A single state tree read by a reactive rendering layer and filled in by
//! external collaborators (an API client, an audio engine). Each in-flight
//! fetch is represented by a [`promise::Promise`], a four-state cell; the
//! root [`State`] composes playback, search, library and detail views and
//! exposes the only sanctioned playback mutators. Every type carries the
//! structural-equality contract [`same::Same`] that change detection relies
//! on.

pub mod album;
pub mod artist;
pub mod config;
pub mod promise;
pub mod route;
pub mod same;
pub mod track;
pub mod utils;

pub use crate::album::{Album, AlbumType};
pub use crate::artist::Artist;
pub use crate::config::{AudioQuality, Config};
pub use crate::promise::{Promise, PromiseState};
pub use crate::route::{Navigation, Route};
pub use crate::same::Same;
pub use crate::track::{Track, TrackCtx, TrackId};
pub use crate::utils::{AudioDuration, Image};

use crate::same::arc_clone;
use std::sync::Arc;
use vstd::prelude::*;

verus! {

/// The root of the state tree. It owns one instance of every sub-state by
/// value: the tree is always fully populated, and "nothing loaded yet" is
/// an empty promise, never a missing record.
#[derive(Clone, Debug, PartialEq)]
pub struct State {
    pub route: Route,
    pub history: Vec<Navigation>,
    pub config: Config,
    pub playback: Playback,
    pub search: Search,
    pub album: AlbumDetail,
    pub artist: ArtistDetail,
    pub playlist: PlaylistDetail,
    pub library: Library,
    pub track_ctx: TrackCtx,
}

/// What the audio engine is doing: the current item, whether it is moving,
/// and how far it has come. With no current item there is neither progress
/// nor motion; the transition methods below keep that so.
#[derive(Clone, Debug, PartialEq)]
pub struct Playback {
    pub is_playing: bool,
    pub progress: Option<AudioDuration>,
    pub item: Option<Arc<Track>>,
}

/// A play queue handed to the audio engine: the tracks and the index of the
/// one to start from.
#[derive(Clone, Debug, PartialEq)]
pub struct PlaybackCtx {
    pub tracks: Vec<Arc<Track>>,
    pub position: usize,
}

/// The search view: the typed query and the slot its results arrive in.
/// Typing a new query is the owning collaborator's cue to drive `results`
/// pending again and issue a new fetch.
#[derive(Clone, Debug, PartialEq)]
pub struct Search {
    pub input: String,
    pub results: Promise<SearchResults, String>,
}

/// What a search returned, split by kind.
#[derive(Clone, Debug, PartialEq)]
pub struct SearchResults {
    pub artists: Vec<Artist>,
    pub albums: Vec<Album>,
    pub tracks: Vec<Arc<Track>>,
}

/// The user's saved music, one slot per shelf.
#[derive(Clone, Debug, PartialEq)]
pub struct Library {
    pub saved_albums: Promise<Vec<Album>, String>,
    pub saved_tracks: Promise<Vec<Arc<Track>>, String>,
    pub playlists: Promise<Vec<Playlist>, String>,
}

/// The album screen: the id being shown and the slot its album arrives in.
#[derive(Clone, Debug, PartialEq)]
pub struct AlbumDetail {
    pub id: String,
    pub album: Promise<Album, String>,
}

/// The artist screen: the id being shown and one slot per section.
#[derive(Clone, Debug, PartialEq)]
pub struct ArtistDetail {
    pub id: String,
    pub artist: Promise<Artist, String>,
    pub albums: Promise<Vec<Album>, String>,
    pub top_tracks: Promise<Vec<Arc<Track>>, String>,
}

/// The playlist screen: the playlist itself and its tracks.
#[derive(Clone, Debug, PartialEq)]
pub struct PlaylistDetail {
    pub playlist: Promise<Playlist, String>,
    pub tracks: Promise<Vec<Arc<Track>>, String>,
}

/// One playlist, as listed in the library.
#[derive(Clone, Debug, PartialEq)]
pub struct Playlist {
    pub id: String,
    pub images: Vec<Image>,
    pub name: String,
}

/// The stopped-state invariant: with no current item there is neither
/// motion nor progress.
pub open spec fn playback_stopped_wf(p: Playback) -> bool {
    p.item is None ==> (!p.is_playing && p.progress is None)
}

/// The denormalization invariant: the row-rendering context mirrors the
/// playback item exactly, so no reader can observe a torn state.
pub open spec fn ctx_in_sync(s: State) -> bool {
    s.track_ctx.playback_item == s.playback.item
}

/// The freshly constructed tree: home screen, no history, default
/// configuration, nothing playing, every slot empty and never requested.
pub open spec fn is_initial(s: State) -> bool {
    &&& s.route == Route::Home
    &&& s.history@.len() == 0
    &&& s.config == (Config { audio_quality: AudioQuality::Normal, cache_enabled: false })
    &&& s.playback == (Playback { is_playing: false, progress: None, item: None })
    &&& s.search.input@.len() == 0
    &&& s.search.results.is_fresh()
    &&& s.album.id@.len() == 0
    &&& s.album.album.is_fresh()
    &&& s.artist.id@.len() == 0
    &&& s.artist.artist.is_fresh()
    &&& s.artist.albums.is_fresh()
    &&& s.artist.top_tracks.is_fresh()
    &&& s.playlist.playlist.is_fresh()
    &&& s.playlist.tracks.is_fresh()
    &&& s.library.saved_albums.is_fresh()
    &&& s.library.saved_tracks.is_fresh()
    &&& s.library.playlists.is_fresh()
    &&& s.track_ctx.playback_item is None
    &&& s.track_ctx.saved_tracks@.len() == 0
}

impl Default for State {
    /// The fully populated initial tree.
    fn default() -> (s: Self)
        ensures
            is_initial(s),
    {
        State {
            route: Route::Home,
            history: Vec::new(),
            config: Config::default(),
            playback: Playback { is_playing: false, progress: None, item: None },
            search: Search { input: String::new(), results: Promise::new() },
            album: AlbumDetail { id: String::new(), album: Promise::new() },
            artist: ArtistDetail {
                id: String::new(),
                artist: Promise::new(),
                albums: Promise::new(),
                top_tracks: Promise::new(),
            },
            playlist: PlaylistDetail { playlist: Promise::new(), tracks: Promise::new() },
            library: Library {
                saved_albums: Promise::new(),
                saved_tracks: Promise::new(),
                playlists: Promise::new(),
            },
            track_ctx: TrackCtx { playback_item: None, saved_tracks: Vec::new() },
        }
    }
}

impl State {
    /// The tree after playback of `track` starts: it becomes the current
    /// item, motion is on, stale progress is cleared, and the row context
    /// mirrors the new item — all in one step.
    pub open spec fn playing_effect(self, track: Arc<Track>) -> State {
        State {
            playback: Playback { is_playing: true, progress: None, item: Some(track) },
            track_ctx: TrackCtx { playback_item: Some(track), ..self.track_ctx },
            ..self
        }
    }

    /// Start playing `item`. The row context is updated in the same call:
    /// both fields end up holding the same shared instance.
    pub fn set_playback_playing(&mut self, item: Arc<Track>)
        ensures
            *final(self) == old(self).playing_effect(item),
    {
        self.playback.is_playing = true;
        self.playback.item = Some(arc_clone(&item));
        self.playback.progress = None;
        self.track_ctx.playback_item = Some(item);
    }

    /// The tree after the engine reports a position: only the progress
    /// field moves; playback identity is untouched.
    pub open spec fn progress_effect(self, progress: AudioDuration) -> State {
        State { playback: Playback { progress: Some(progress), ..self.playback }, ..self }
    }

    /// Record the engine's reported position.
    pub fn set_playback_progress(&mut self, progress: AudioDuration)
        ensures
            *final(self) == old(self).progress_effect(progress),
    {
        self.playback.progress = Some(progress);
    }

    /// The tree after a pause: motion stops; item and progress stay.
    pub open spec fn paused_effect(self) -> State {
        State { playback: Playback { is_playing: false, ..self.playback }, ..self }
    }

    /// Pause playback.
    pub fn set_playback_paused(&mut self)
        ensures
            *final(self) == old(self).paused_effect(),
    {
        self.playback.is_playing = false;
    }

    /// The tree after a stop: no item, no progress, no motion, and the row
    /// context mirrors the cleared item — all in one step.
    pub open spec fn stopped_effect(self) -> State {
        State {
            playback: Playback { is_playing: false, progress: None, item: None },
            track_ctx: TrackCtx { playback_item: None, ..self.track_ctx },
            ..self
        }
    }

    /// Stop playback. The row context is cleared in the same call.
    pub fn set_playback_stopped(&mut self)
        ensures
            *final(self) == old(self).stopped_effect(),
    {
        self.playback.is_playing = false;
        self.playback.item = None;
        self.playback.progress = None;
        self.track_ctx.playback_item = None;
    }
}

/// Law: every playback transition keeps the stopped-state invariant. A
/// progress report presumes a current item: delivered to a stopped state it
/// would record progress with nothing playing, so that clause holds under
/// that presumption.
pub proof fn lemma_transitions_keep_stopped_wf(s: State, track: Arc<Track>, d: AudioDuration)
    requires
        playback_stopped_wf(s.playback),
    ensures
        playback_stopped_wf(s.playing_effect(track).playback),
        playback_stopped_wf(s.paused_effect().playback),
        playback_stopped_wf(s.stopped_effect().playback),
        s.playback.item is Some ==> playback_stopped_wf(s.progress_effect(d).playback),
{
}

/// Law: starting and stopping playback establish the denormalization
/// invariant from any state at all, and the transitions that leave the item
/// alone preserve it; no single sanctioned mutation can tear the row
/// context from the playback item.
pub proof fn lemma_transitions_keep_ctx_in_sync(s: State, track: Arc<Track>, d: AudioDuration)
    ensures
        ctx_in_sync(s.playing_effect(track)),
        ctx_in_sync(s.stopped_effect()),
        ctx_in_sync(s) ==> ctx_in_sync(s.paused_effect()),
        ctx_in_sync(s) ==> ctx_in_sync(s.progress_effect(d)),
{
}

impl Same for Playback {
    open spec fn same_spec(self, other: Self) -> bool {
        self.is_playing == other.is_playing && self.progress.same_spec(other.progress)
            && self.item.same_spec(other.item)
    }

    fn same(&self, other: &Self) -> (r: bool) {
        self.is_playing == other.is_playing && self.progress.same(&other.progress)
            && self.item.same(&other.item)
    }

    proof fn same_refl(&self) {
        self.progress.same_refl();
        self.item.same_refl();
    }
}

impl Same for PlaybackCtx {
    open spec fn same_spec(self, other: Self) -> bool {
        self.tracks.same_spec(other.tracks) && self.position == other.position
    }

    fn same(&self, other: &Self) -> (r: bool) {
        self.tracks.same(&other.tracks) && self.position == other.position
    }

    proof fn same_refl(&self) {
        self.tracks.same_refl();
    }
}

impl Same for SearchResults {
    open spec fn same_spec(self, other: Self) -> bool {
        self.artists.same_spec(other.artists) && self.albums.same_spec(other.albums)
            && self.tracks.same_spec(other.tracks)
    }

    fn same(&self, other: &Self) -> (r: bool) {
        self.artists.same(&other.artists) && self.albums.same(&other.albums) && self.tracks.same(
            &other.tracks,
        )
    }

    proof fn same_refl(&self) {
        self.artists.same_refl();
        self.albums.same_refl();
        self.tracks.same_refl();
    }
}

impl Same for Search {
    open spec fn same_spec(self, other: Self) -> bool {
        self.input.same_spec(other.input) && self.results.same_spec(other.results)
    }

    fn same(&self, other: &Self) -> (r: bool) {
        self.input.same(&other.input) && self.results.same(&other.results)
    }

    proof fn same_refl(&self) {
        self.results.same_refl();
    }
}

impl Same for Playlist {
    open spec fn same_spec(self, other: Self) -> bool {
        self.id.same_spec(other.id) && self.images.same_spec(other.images) && self.name.same_spec(
            other.name,
        )
    }

    fn same(&self, other: &Self) -> (r: bool) {
        self.id.same(&other.id) && self.images.same(&other.images) && self.name.same(&other.name)
    }

    proof fn same_refl(&self) {
        self.images.same_refl();
    }
}

impl Same for Library {
    open spec fn same_spec(self, other: Self) -> bool {
        self.saved_albums.same_spec(other.saved_albums) && self.saved_tracks.same_spec(
            other.saved_tracks,
        ) && self.playlists.same_spec(other.playlists)
    }

    fn same(&self, other: &Self) -> (r: bool) {
        self.saved_albums.same(&other.saved_albums) && self.saved_tracks.same(&other.saved_tracks)
            && self.playlists.same(&other.playlists)
    }

    proof fn same_refl(&self) {
        self.saved_albums.same_refl();
        self.saved_tracks.same_refl();
        self.playlists.same_refl();
    }
}

impl Same for AlbumDetail {
    open spec fn same_spec(self, other: Self) -> bool {
        self.id.same_spec(other.id) && self.album.same_spec(other.album)
    }

    fn same(&self, other: &Self) -> (r: bool) {
        self.id.same(&other.id) && self.album.same(&other.album)
    }

    proof fn same_refl(&self) {
        self.album.same_refl();
    }
}

impl Same for ArtistDetail {
    open spec fn same_spec(self, other: Self) -> bool {
        self.id.same_spec(other.id) && self.artist.same_spec(other.artist)
            && self.albums.same_spec(other.albums) && self.top_tracks.same_spec(other.top_tracks)
    }

    fn same(&self, other: &Self) -> (r: bool) {
        self.id.same(&other.id) && self.artist.same(&other.artist) && self.albums.same(
            &other.albums,
        ) && self.top_tracks.same(&other.top_tracks)
    }

    proof fn same_refl(&self) {
        self.artist.same_refl();
        self.albums.same_refl();
        self.top_tracks.same_refl();
    }
}

impl Same for PlaylistDetail {
    open spec fn same_spec(self, other: Self) -> bool {
        self.playlist.same_spec(other.playlist) && self.tracks.same_spec(other.tracks)
    }

    fn same(&self, other: &Self) -> (r: bool) {
        self.playlist.same(&other.playlist) && self.tracks.same(&other.tracks)
    }

    proof fn same_refl(&self) {
        self.playlist.same_refl();
        self.tracks.same_refl();
    }
}

impl Same for State {
    open spec fn same_spec(self, other: Self) -> bool {
        &&& self.route.same_spec(other.route)
        &&& self.history.same_spec(other.history)
        &&& self.config.same_spec(other.config)
        &&& self.playback.same_spec(other.playback)
        &&& self.search.same_spec(other.search)
        &&& self.album.same_spec(other.album)
        &&& self.artist.same_spec(other.artist)
        &&& self.playlist.same_spec(other.playlist)
        &&& self.library.same_spec(other.library)
        &&& self.track_ctx.same_spec(other.track_ctx)
    }

    fn same(&self, other: &Self) -> (r: bool) {
        self.route.same(&other.route) && self.history.same(&other.history) && self.config.same(
            &other.config,
        ) && self.playback.same(&other.playback) && self.search.same(&other.search)
            && self.album.same(&other.album) && self.artist.same(&other.artist)
            && self.playlist.same(&other.playlist) && self.library.same(&other.library)
            && self.track_ctx.same(&other.track_ctx)
    }

    proof fn same_refl(&self) {
        self.history.same_refl();
        self.playback.same_refl();
        self.search.same_refl();
        self.album.same_refl();
        self.artist.same_refl();
        self.playlist.same_refl();
        self.library.same_refl();
        self.track_ctx.same_refl();
    }
}

} // verus!
