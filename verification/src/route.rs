//! Navigation: which screen the UI shows, and the history of screens.

use crate::same::Same;
use vstd::prelude::*;

verus! {

/// The screen the UI currently shows.
#[derive(Clone, Copy, Debug, PartialEq, Eq, Structural)]
pub enum Route {
    Home,
    SearchResults,
    AlbumDetail,
    ArtistDetail,
    PlaylistDetail,
    Library,
}

impl Same for Route {
    open spec fn same_spec(self, other: Self) -> bool {
        self == other
    }

    fn same(&self, other: &Self) -> (r: bool) {
        *self == *other
    }

    proof fn same_refl(&self) {
    }
}

/// One entry of the navigation history: a screen together with the request
/// key (query text or catalog id) it was showing.
#[derive(Clone, Debug, PartialEq)]
pub enum Navigation {
    Home,
    SearchResults(String),
    AlbumDetail(String),
    ArtistDetail(String),
    PlaylistDetail(String),
    Library,
}

impl Same for Navigation {
    open spec fn same_spec(self, other: Self) -> bool {
        match (self, other) {
            (Navigation::Home, Navigation::Home) => true,
            (Navigation::Library, Navigation::Library) => true,
            (Navigation::SearchResults(a), Navigation::SearchResults(b)) => a.same_spec(b),
            (Navigation::AlbumDetail(a), Navigation::AlbumDetail(b)) => a.same_spec(b),
            (Navigation::ArtistDetail(a), Navigation::ArtistDetail(b)) => a.same_spec(b),
            (Navigation::PlaylistDetail(a), Navigation::PlaylistDetail(b)) => a.same_spec(b),
            _ => false,
        }
    }

    fn same(&self, other: &Self) -> (r: bool) {
        match (self, other) {
            (Navigation::Home, Navigation::Home) => true,
            (Navigation::Library, Navigation::Library) => true,
            (Navigation::SearchResults(a), Navigation::SearchResults(b)) => a.same(b),
            (Navigation::AlbumDetail(a), Navigation::AlbumDetail(b)) => a.same(b),
            (Navigation::ArtistDetail(a), Navigation::ArtistDetail(b)) => a.same(b),
            (Navigation::PlaylistDetail(a), Navigation::PlaylistDetail(b)) => a.same(b),
            _ => false,
        }
    }

    proof fn same_refl(&self) {
    }
}

} // verus!
