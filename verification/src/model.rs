//! The items that the player lists, as far as the popups read them.

use vstd::prelude::*;

verus! {

/// A track, known by its id.
#[derive(Debug, Clone, PartialEq, Eq)]
pub struct Track {
    pub id: String,
    pub name: String,
}

/// An artist, known by its id.
#[derive(Debug, Clone, PartialEq, Eq)]
pub struct Artist {
    pub id: String,
    pub name: String,
}

/// An album, known by its id.
#[derive(Debug, Clone, PartialEq, Eq)]
pub struct Album {
    pub id: String,
    pub name: String,
}

/// A playlist, known by its id.
#[derive(Debug, Clone, PartialEq, Eq)]
pub struct Playlist {
    pub id: String,
    pub name: String,
}

/// A colour theme, known by its name.
#[derive(Debug, Clone, PartialEq, Eq)]
pub struct Theme {
    pub name: String,
}

} // verus!
