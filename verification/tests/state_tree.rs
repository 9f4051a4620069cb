use psst_data::{
    Album, AlbumType, Artist, AudioDuration, AudioQuality, Config, Navigation, Playback,
    PromiseState, Route, Same, SearchResults, State, Track, TrackCtx, TrackId,
};
use std::sync::Arc;

fn track(id: &str, name: &str, millis: u64) -> Arc<Track> {
    Arc::new(Track {
        id: TrackId(String::from(id)),
        name: String::from(name),
        duration: AudioDuration { millis },
    })
}

fn stopped_invariant_holds(p: &Playback) {
    if p.item.is_none() {
        assert!(!p.is_playing);
        assert!(p.progress.is_none());
    }
}

#[test]
fn default_state_is_fully_populated_and_empty() {
    let s = State::default();
    assert_eq!(s.route, Route::Home);
    assert!(s.history.is_empty());
    assert_eq!(
        s.config,
        Config { audio_quality: AudioQuality::Normal, cache_enabled: false }
    );
    assert!(!s.playback.is_playing);
    assert!(s.playback.item.is_none());
    assert!(s.playback.progress.is_none());
    assert!(s.search.input.is_empty());
    assert!(s.search.results.is_empty());
    assert!(s.album.id.is_empty());
    assert!(s.album.album.is_empty());
    assert!(s.artist.artist.is_empty());
    assert!(s.artist.albums.is_empty());
    assert!(s.artist.top_tracks.is_empty());
    assert!(s.playlist.playlist.is_empty());
    assert!(s.playlist.tracks.is_empty());
    assert!(s.library.saved_albums.is_empty());
    assert!(s.library.saved_tracks.is_empty());
    assert!(s.library.playlists.is_empty());
    assert!(s.track_ctx.playback_item.is_none());
    assert!(s.track_ctx.saved_tracks.is_empty());
}

#[test]
fn playing_sets_item_and_mirrors_context() {
    let mut s = State::default();
    let a = track("tr1", "First", 180_000);
    s.set_playback_playing(a.clone());
    assert!(s.playback.is_playing);
    assert_eq!(s.playback.item, Some(a.clone()));
    assert!(s.playback.progress.is_none());
    assert_eq!(s.track_ctx.playback_item, Some(a));
}

#[test]
fn context_item_is_reference_equal_to_playback_item() {
    let mut s = State::default();
    let a = track("tr1", "First", 180_000);
    s.set_playback_playing(a.clone());
    let in_playback = s.playback.item.as_ref().unwrap();
    let in_ctx = s.track_ctx.playback_item.as_ref().unwrap();
    assert!(Arc::ptr_eq(in_playback, &a));
    assert!(Arc::ptr_eq(in_ctx, &a));
    assert!(Arc::ptr_eq(in_playback, in_ctx));
    s.set_playback_stopped();
    assert_eq!(s.track_ctx.playback_item, s.playback.item);
}

#[test]
fn pausing_keeps_item() {
    let mut s = State::default();
    let a = track("tr1", "First", 180_000);
    s.set_playback_playing(a.clone());
    s.set_playback_paused();
    assert!(!s.playback.is_playing);
    assert_eq!(s.playback.item, Some(a));
}

#[test]
fn stopping_clears_everything() {
    let mut s = State::default();
    let a = track("tr1", "First", 180_000);
    s.set_playback_playing(a);
    s.set_playback_paused();
    s.set_playback_stopped();
    assert!(s.playback.item.is_none());
    assert!(s.playback.progress.is_none());
    assert!(!s.playback.is_playing);
    assert!(s.track_ctx.playback_item.is_none());
}

#[test]
fn progress_only_moves_the_progress_field() {
    let mut s = State::default();
    let a = track("tr1", "First", 180_000);
    s.set_playback_playing(a.clone());
    s.set_playback_progress(AudioDuration { millis: 42_000 });
    assert_eq!(s.playback.progress, Some(AudioDuration { millis: 42_000 }));
    assert_eq!(s.playback.item, Some(a));
    assert!(s.playback.is_playing);
}

#[test]
fn stopped_invariant_survives_transition_sequences() {
    let a = track("tr1", "First", 180_000);
    let b = track("tr2", "Second", 95_000);

    let mut s = State::default();
    stopped_invariant_holds(&s.playback);
    s.set_playback_playing(a.clone());
    stopped_invariant_holds(&s.playback);
    s.set_playback_progress(AudioDuration { millis: 1_000 });
    stopped_invariant_holds(&s.playback);
    s.set_playback_paused();
    stopped_invariant_holds(&s.playback);
    s.set_playback_stopped();
    stopped_invariant_holds(&s.playback);
    s.set_playback_paused();
    stopped_invariant_holds(&s.playback);
    s.set_playback_playing(b);
    s.set_playback_playing(a);
    stopped_invariant_holds(&s.playback);
    s.set_playback_stopped();
    s.set_playback_stopped();
    stopped_invariant_holds(&s.playback);
}

#[test]
fn search_results_resolve_to_the_exact_value() {
    let mut s = State::default();
    assert!(matches!(s.search.results.state, PromiseState::Empty));
    s.search.input = String::from("first");
    let id = s.search.results.to_pending();
    assert!(s.search.results.is_pending());
    let results = SearchResults {
        artists: vec![Artist {
            id: String::from("ar1"),
            name: String::from("Some Band"),
            images: vec![],
        }],
        albums: vec![Album {
            id: String::from("al1"),
            name: String::from("First Album"),
            album_type: AlbumType::Album,
            images: vec![],
            tracks: vec![track("tr1", "First", 180_000)],
        }],
        tracks: vec![track("tr1", "First", 180_000)],
    };
    s.search.results.resolve(id, results.clone());
    assert_eq!(s.search.results.resolved(), Some(&results));
}

#[test]
fn identically_built_states_compare_equal() {
    let build_one = || {
        let mut s = State::default();
        s.search.input = String::from("query");
        s.history.push(Navigation::SearchResults(String::from("query")));
        s.set_playback_playing(track("tr1", "First", 180_000));
        s.set_playback_progress(AudioDuration { millis: 5_000 });
        s
    };
    let build_other = || {
        let mut s = State::default();
        s.set_playback_playing(track("tr1", "First", 180_000));
        s.set_playback_progress(AudioDuration { millis: 5_000 });
        s.history.push(Navigation::SearchResults(String::from("query")));
        s.search.input = String::from("query");
        s
    };
    let a = build_one();
    let b = build_other();
    assert!(a.same(&b));
    assert!(b.same(&a));
    assert!(a.same(&a));

    let mut c = build_one();
    c.set_playback_paused();
    assert!(!a.same(&c));
    let mut d = build_one();
    d.search.input = String::from("other");
    assert!(!a.same(&d));
}

#[test]
fn shared_handles_compare_equal_without_matching_pointers() {
    let mut a = State::default();
    let mut b = State::default();
    let t1 = track("tr1", "First", 180_000);
    let t2 = track("tr1", "First", 180_000);
    assert!(!Arc::ptr_eq(&t1, &t2));
    a.set_playback_playing(t1);
    b.set_playback_playing(t2);
    assert!(a.same(&b));
    let mut c = State::default();
    c.set_playback_playing(track("tr2", "Second", 95_000));
    assert!(!a.same(&c));
}

#[test]
fn track_context_reports_saved_and_playing_rows() {
    let ctx = TrackCtx {
        playback_item: Some(track("tr2", "Second", 95_000)),
        saved_tracks: vec![TrackId(String::from("tr1")), TrackId(String::from("tr3"))],
    };
    assert!(ctx.is_track_saved(&TrackId(String::from("tr1"))));
    assert!(ctx.is_track_saved(&TrackId(String::from("tr3"))));
    assert!(!ctx.is_track_saved(&TrackId(String::from("tr2"))));
    let playing = track("tr2", "Second", 95_000);
    assert!(ctx.is_track_playing(&playing));
    let other = track("tr1", "First", 180_000);
    assert!(!ctx.is_track_playing(&other));
    let idle = TrackCtx { playback_item: None, saved_tracks: vec![] };
    assert!(!idle.is_track_playing(&playing));
}

#[test]
fn library_slots_fail_independently() {
    let mut s = State::default();
    let albums_id = s.library.saved_albums.to_pending();
    let tracks_id = s.library.saved_tracks.to_pending();
    s.library.saved_albums.reject(albums_id, String::from("offline"));
    s.library.saved_tracks.resolve(tracks_id, vec![track("tr1", "First", 180_000)]);
    assert_eq!(s.library.saved_albums.rejected(), Some(&String::from("offline")));
    assert!(s.library.saved_tracks.resolved().is_some());
    assert!(s.library.playlists.is_empty());
}
