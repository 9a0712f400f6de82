//! The popups of the player and what they hold.

use crate::command::{AlbumAction, ArtistAction, PlaylistAction, TrackAction};
use crate::model::{Album, Artist, Playlist, Theme, Track};
use tui::widgets::ListState;
use vstd::prelude::*;

verus! {

/// `tui::widgets::ListState`, the state of a list widget, which Verus
/// carries through without looking inside.
#[verifier::external_type_specification]
#[verifier::external_body]
pub struct ExListState(tui::widgets::ListState);

/// The position that a `tui::widgets::ListState` has selected.
pub uninterp spec fn selection(state: ListState) -> Option<usize>;

/// `tui::widgets::ListState::selected` hands out the position that the state
/// has selected.
pub assume_specification[ tui::widgets::ListState::selected ](state: &ListState) -> (index: Option<
    usize,
>)
    ensures
        index == selection(*state),
;

/// `tui::widgets::ListState::select` makes `index` the selected position.
/// What else it does to the state, the contract leaves open.
pub assume_specification[ tui::widgets::ListState::select ](
    state: &mut ListState,
    index: Option<usize>,
)
    ensures
        selection(*final(state)) == index,
;

/// A popup that is open over a page.
#[derive(Debug)]
pub enum PopupState {
    CommandHelp { scroll_offset: usize },
    Search { query: String },
    UserPlaylistList(PlaylistPopupAction, ListState),
    UserFollowedArtistList(ListState),
    UserSavedAlbumList(ListState),
    DeviceList(ListState),
    ArtistList(ArtistPopupAction, Vec<Artist>, ListState),
    ThemeList(Vec<Theme>, ListState),
    ActionList(ActionListItem, ListState),
    Queue { scroll_offset: usize },
}

/// An item with the actions that its popup offers.
#[derive(Debug, Clone, PartialEq, Eq)]
pub enum ActionListItem {
    Track(Track, Vec<TrackAction>),
    Artist(Artist, Vec<ArtistAction>),
    Album(Album, Vec<AlbumAction>),
    Playlist(Playlist, Vec<PlaylistAction>),
}

/// An action on an item in a playlist popup list.
#[derive(Debug, PartialEq, Eq)]
pub enum PlaylistPopupAction {
    Browse,
    /// Add the track with this id to the playlist.
    AddTrack(String),
}

/// An action on an item in an artist popup list.
#[derive(Copy, Clone, Debug, PartialEq, Eq, Structural)]
pub enum ArtistPopupAction {
    Browse,
    ShowActions,
}

impl ActionListItem {
    /// The number of actions.
    pub open spec fn spec_n_actions(self) -> nat {
        match self {
            ActionListItem::Track(_, actions) => actions@.len(),
            ActionListItem::Artist(_, actions) => actions@.len(),
            ActionListItem::Album(_, actions) => actions@.len(),
            ActionListItem::Playlist(_, actions) => actions@.len(),
        }
    }

    /// The item's name.
    pub open spec fn spec_name(self) -> Seq<char> {
        match self {
            ActionListItem::Track(track, _) => track.name@,
            ActionListItem::Artist(artist, _) => artist.name@,
            ActionListItem::Album(album, _) => album.name@,
            ActionListItem::Playlist(playlist, _) => playlist.name@,
        }
    }

    /// The name of action `i`.
    pub open spec fn spec_action_desc(self, i: int) -> Seq<char>
        recommends
            0 <= i < self.spec_n_actions(),
    {
        match self {
            ActionListItem::Track(_, actions) => actions@[i].spec_description(),
            ActionListItem::Artist(_, actions) => actions@[i].spec_description(),
            ActionListItem::Album(_, actions) => actions@[i].spec_description(),
            ActionListItem::Playlist(_, actions) => actions@[i].spec_description(),
        }
    }

    /// The number of actions that the popup offers on the item.
    pub fn n_actions(&self) -> (n: usize)
        ensures
            n == self.spec_n_actions(),
    {
        match self {
            ActionListItem::Track(_, actions) => actions.len(),
            ActionListItem::Artist(_, actions) => actions.len(),
            ActionListItem::Album(_, actions) => actions.len(),
            ActionListItem::Playlist(_, actions) => actions.len(),
        }
    }

    /// The item's name.
    pub fn name(&self) -> (name: &str)
        ensures
            name@ == self.spec_name(),
    {
        match self {
            ActionListItem::Track(track, _) => track.name.as_str(),
            ActionListItem::Artist(artist, _) => artist.name.as_str(),
            ActionListItem::Album(album, _) => album.name.as_str(),
            ActionListItem::Playlist(playlist, _) => playlist.name.as_str(),
        }
    }

    /// The names of the actions, in the order in which they are offered.
    pub fn actions_desc(&self) -> (names: Vec<String>)
        ensures
            names.len() == self.spec_n_actions(),
            forall|i: int|
                0 <= i < names.len() ==> (#[trigger] names@[i])@ == self.spec_action_desc(i),
    {
        let mut names: Vec<String> = Vec::new();
        let n: usize = self.n_actions();
        let mut i: usize = 0;
        while i < n
            invariant
                i <= n,
                n == self.spec_n_actions(),
                names.len() == i,
                forall|k: int| 0 <= k < i ==> (#[trigger] names@[k])@ == self.spec_action_desc(k),
            decreases n - i,
        {
            let name = match self {
                ActionListItem::Track(_, actions) => actions[i].description(),
                ActionListItem::Artist(_, actions) => actions[i].description(),
                ActionListItem::Album(_, actions) => actions[i].description(),
                ActionListItem::Playlist(_, actions) => actions[i].description(),
            };
            names.push(name);
            i += 1;
        }
        names
    }
}

impl PopupState {
    /// The list state of a popup that shows a list.
    pub open spec fn spec_list_state(self) -> Option<ListState> {
        match self {
            PopupState::DeviceList(list_state) => Some(list_state),
            PopupState::UserPlaylistList(_, list_state) => Some(list_state),
            PopupState::UserFollowedArtistList(list_state) => Some(list_state),
            PopupState::UserSavedAlbumList(list_state) => Some(list_state),
            PopupState::ArtistList(_, _, list_state) => Some(list_state),
            PopupState::ThemeList(_, list_state) => Some(list_state),
            PopupState::ActionList(_, list_state) => Some(list_state),
            PopupState::CommandHelp { .. } | PopupState::Search { .. } | PopupState::Queue {
                ..
            } => None,
        }
    }

    /// The popup with `list_state` in place of its list state; a popup
    /// without a list is left as it is.
    pub open spec fn with_list_state(self, list_state: ListState) -> PopupState {
        match self {
            PopupState::DeviceList(_) => PopupState::DeviceList(list_state),
            PopupState::UserPlaylistList(action, _) => PopupState::UserPlaylistList(
                action,
                list_state,
            ),
            PopupState::UserFollowedArtistList(_) => PopupState::UserFollowedArtistList(list_state),
            PopupState::UserSavedAlbumList(_) => PopupState::UserSavedAlbumList(list_state),
            PopupState::ArtistList(action, artists, _) => PopupState::ArtistList(
                action,
                artists,
                list_state,
            ),
            PopupState::ThemeList(themes, _) => PopupState::ThemeList(themes, list_state),
            PopupState::ActionList(item, _) => PopupState::ActionList(item, list_state),
            PopupState::CommandHelp { .. } | PopupState::Search { .. } | PopupState::Queue {
                ..
            } => self,
        }
    }

    /// The position selected in a popup that shows a list.
    pub open spec fn spec_list_selected(self) -> Option<usize> {
        match self.spec_list_state() {
            Some(list_state) => selection(list_state),
            None => None,
        }
    }

    /// Gets the list state of a popup that shows a list.
    pub fn list_state(&self) -> (state: Option<&ListState>)
        ensures
            match state {
                Some(list_state) => self.spec_list_state() == Some(*list_state),
                None => self.spec_list_state() is None,
            },
    {
        match self {
            Self::DeviceList(list_state) => Some(list_state),
            Self::UserPlaylistList(_, list_state) => Some(list_state),
            Self::UserFollowedArtistList(list_state) => Some(list_state),
            Self::UserSavedAlbumList(list_state) => Some(list_state),
            Self::ArtistList(_, _, list_state) => Some(list_state),
            Self::ThemeList(_, list_state) => Some(list_state),
            Self::ActionList(_, list_state) => Some(list_state),
            Self::CommandHelp { .. } | Self::Search { .. } | Self::Queue { .. } => None,
        }
    }

    /// Gets the list state of a popup that shows a list, to change it: what
    /// the caller leaves in it is the popup's list state from then on.
    pub fn list_state_mut(&mut self) -> (state: Option<&mut ListState>)
        ensures
            match state {
                Some(list_state) => {
                    &&& old(self).spec_list_state() == Some(*list_state)
                    &&& *final(self) == old(self).with_list_state(*final(list_state))
                },
                None => old(self).spec_list_state() is None && *final(self) == *old(self),
            },
    {
        match self {
            Self::DeviceList(list_state) => Some(list_state),
            Self::UserPlaylistList(_, list_state) => Some(list_state),
            Self::UserFollowedArtistList(list_state) => Some(list_state),
            Self::UserSavedAlbumList(list_state) => Some(list_state),
            Self::ArtistList(_, _, list_state) => Some(list_state),
            Self::ThemeList(_, list_state) => Some(list_state),
            Self::ActionList(_, list_state) => Some(list_state),
            Self::CommandHelp { .. } | Self::Search { .. } | Self::Queue { .. } => None,
        }
    }

    /// Gets the selected position of a popup that shows a list.
    pub fn list_selected(&self) -> (index: Option<usize>)
        ensures
            index == self.spec_list_selected(),
    {
        match self.list_state() {
            None => None,
            Some(state) => state.selected(),
        }
    }

    /// Selects a position in a popup that shows a list; any other popup is
    /// left as it is.
    pub fn list_select(&mut self, id: Option<usize>)
        ensures
            old(self).spec_list_state() is None ==> *final(self) == *old(self),
            old(self).spec_list_state() is Some ==> {
                &&& final(self).spec_list_selected() == id
                &&& *final(self) == old(self).with_list_state(
                    final(self).spec_list_state().unwrap(),
                )
            },
    {
        match self.list_state_mut() {
            None => {},
            Some(state) => state.select(id),
        }
    }
}

} // verus!
