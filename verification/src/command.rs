//! The commands that key sequences map to.

use vstd::prelude::*;

verus! {

/// A command of the player. The key map, which the application owns, turns a
/// key sequence into one of these.
#[derive(Debug, Clone, Copy, PartialEq, Eq, Structural)]
pub enum Command {
    NextTrack,
    PreviousTrack,
    ResumePause,
    Repeat,
    Shuffle,
    VolumeUp,
    VolumeDown,
    Quit,
    OpenCommandHelp,
    ClosePopup,
    SelectNextOrScrollDown,
    SelectPreviousOrScrollUp,
    PageSelectNextOrScrollDown,
    PageSelectPreviousOrScrollUp,
    SelectFirstOrScrollToTop,
    SelectLastOrScrollToBottom,
    ChooseSelected,
    CopySelectedLine,
    RefreshPlayback,
    ShowActionsOnSelectedItem,
    ShowActionsOnCurrentTrack,
    FocusNextWindow,
    FocusPreviousWindow,
    SwitchTheme,
    SwitchDevice,
    Search,
    LyricPage,
    LibraryPage,
    SearchPage,
    BrowsePage,
    PreviousPage,
}

impl Command {
    /// Whether the command moves a selection or a cursor: one step, one
    /// page, or to either end.
    pub open spec fn is_navigation(self) -> bool {
        self == Command::SelectNextOrScrollDown || self == Command::SelectPreviousOrScrollUp
            || self == Command::PageSelectNextOrScrollDown || self
            == Command::PageSelectPreviousOrScrollUp || self == Command::SelectFirstOrScrollToTop
            || self == Command::SelectLastOrScrollToBottom
    }
}

/// What can be done with a track.
#[derive(Debug, Clone, Copy, PartialEq, Eq, Structural)]
pub enum TrackAction {
    GoToArtist,
    GoToAlbum,
    GoToTrackRadio,
    GoToArtistRadio,
    GoToAlbumRadio,
    AddToQueue,
    AddToPlaylist,
    DeleteFromCurrentPlaylist,
    AddToLikedTracks,
    DeleteFromLikedTracks,
    CopyTrackLink,
}

impl TrackAction {
    /// The action's name, as it is listed.
    pub open spec fn spec_description(self) -> Seq<char> {
        match self {
            TrackAction::GoToArtist => "GoToArtist"@,
            TrackAction::GoToAlbum => "GoToAlbum"@,
            TrackAction::GoToTrackRadio => "GoToTrackRadio"@,
            TrackAction::GoToArtistRadio => "GoToArtistRadio"@,
            TrackAction::GoToAlbumRadio => "GoToAlbumRadio"@,
            TrackAction::AddToQueue => "AddToQueue"@,
            TrackAction::AddToPlaylist => "AddToPlaylist"@,
            TrackAction::DeleteFromCurrentPlaylist => "DeleteFromCurrentPlaylist"@,
            TrackAction::AddToLikedTracks => "AddToLikedTracks"@,
            TrackAction::DeleteFromLikedTracks => "DeleteFromLikedTracks"@,
            TrackAction::CopyTrackLink => "CopyTrackLink"@,
        }
    }

    /// The action's name, as it is listed.
    pub fn description(&self) -> (text: String)
        ensures
            text@ == self.spec_description(),
    {
        match self {
            TrackAction::GoToArtist => String::from_str("GoToArtist"),
            TrackAction::GoToAlbum => String::from_str("GoToAlbum"),
            TrackAction::GoToTrackRadio => String::from_str("GoToTrackRadio"),
            TrackAction::GoToArtistRadio => String::from_str("GoToArtistRadio"),
            TrackAction::GoToAlbumRadio => String::from_str("GoToAlbumRadio"),
            TrackAction::AddToQueue => String::from_str("AddToQueue"),
            TrackAction::AddToPlaylist => String::from_str("AddToPlaylist"),
            TrackAction::DeleteFromCurrentPlaylist => String::from_str("DeleteFromCurrentPlaylist"),
            TrackAction::AddToLikedTracks => String::from_str("AddToLikedTracks"),
            TrackAction::DeleteFromLikedTracks => String::from_str("DeleteFromLikedTracks"),
            TrackAction::CopyTrackLink => String::from_str("CopyTrackLink"),
        }
    }
}

/// What can be done with an artist.
#[derive(Debug, Clone, Copy, PartialEq, Eq, Structural)]
pub enum ArtistAction {
    GoToArtistRadio,
    Follow,
    Unfollow,
    CopyArtistLink,
}

impl ArtistAction {
    /// The action's name, as it is listed.
    pub open spec fn spec_description(self) -> Seq<char> {
        match self {
            ArtistAction::GoToArtistRadio => "GoToArtistRadio"@,
            ArtistAction::Follow => "Follow"@,
            ArtistAction::Unfollow => "Unfollow"@,
            ArtistAction::CopyArtistLink => "CopyArtistLink"@,
        }
    }

    /// The action's name, as it is listed.
    pub fn description(&self) -> (text: String)
        ensures
            text@ == self.spec_description(),
    {
        match self {
            ArtistAction::GoToArtistRadio => String::from_str("GoToArtistRadio"),
            ArtistAction::Follow => String::from_str("Follow"),
            ArtistAction::Unfollow => String::from_str("Unfollow"),
            ArtistAction::CopyArtistLink => String::from_str("CopyArtistLink"),
        }
    }
}

/// What can be done with an album.
#[derive(Debug, Clone, Copy, PartialEq, Eq, Structural)]
pub enum AlbumAction {
    GoToArtist,
    GoToAlbumRadio,
    AddToLibrary,
    DeleteFromLibrary,
    CopyAlbumLink,
}

impl AlbumAction {
    /// The action's name, as it is listed.
    pub open spec fn spec_description(self) -> Seq<char> {
        match self {
            AlbumAction::GoToArtist => "GoToArtist"@,
            AlbumAction::GoToAlbumRadio => "GoToAlbumRadio"@,
            AlbumAction::AddToLibrary => "AddToLibrary"@,
            AlbumAction::DeleteFromLibrary => "DeleteFromLibrary"@,
            AlbumAction::CopyAlbumLink => "CopyAlbumLink"@,
        }
    }

    /// The action's name, as it is listed.
    pub fn description(&self) -> (text: String)
        ensures
            text@ == self.spec_description(),
    {
        match self {
            AlbumAction::GoToArtist => String::from_str("GoToArtist"),
            AlbumAction::GoToAlbumRadio => String::from_str("GoToAlbumRadio"),
            AlbumAction::AddToLibrary => String::from_str("AddToLibrary"),
            AlbumAction::DeleteFromLibrary => String::from_str("DeleteFromLibrary"),
            AlbumAction::CopyAlbumLink => String::from_str("CopyAlbumLink"),
        }
    }
}

/// What can be done with a playlist.
#[derive(Debug, Clone, Copy, PartialEq, Eq, Structural)]
pub enum PlaylistAction {
    GoToPlaylistRadio,
    AddToLibrary,
    DeleteFromLibrary,
    CopyPlaylistLink,
}

impl PlaylistAction {
    /// The action's name, as it is listed.
    pub open spec fn spec_description(self) -> Seq<char> {
        match self {
            PlaylistAction::GoToPlaylistRadio => "GoToPlaylistRadio"@,
            PlaylistAction::AddToLibrary => "AddToLibrary"@,
            PlaylistAction::DeleteFromLibrary => "DeleteFromLibrary"@,
            PlaylistAction::CopyPlaylistLink => "CopyPlaylistLink"@,
        }
    }

    /// The action's name, as it is listed.
    pub fn description(&self) -> (text: String)
        ensures
            text@ == self.spec_description(),
    {
        match self {
            PlaylistAction::GoToPlaylistRadio => String::from_str("GoToPlaylistRadio"),
            PlaylistAction::AddToLibrary => String::from_str("AddToLibrary"),
            PlaylistAction::DeleteFromLibrary => String::from_str("DeleteFromLibrary"),
            PlaylistAction::CopyPlaylistLink => String::from_str("CopyPlaylistLink"),
        }
    }
}

} // verus!
