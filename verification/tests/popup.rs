use spotify_player::command::{AlbumAction, ArtistAction, PlaylistAction, TrackAction};
use spotify_player::model::{Album, Artist, Playlist, Theme, Track};
use spotify_player::popup::{ActionListItem, ArtistPopupAction, PlaylistPopupAction, PopupState};
use tui::widgets::ListState;

fn track() -> Track {
    Track { id: "t1".to_string(), name: "A Track".to_string() }
}

fn artist() -> Artist {
    Artist { id: "a1".to_string(), name: "An Artist".to_string() }
}

fn selected(at: Option<usize>) -> ListState {
    let mut state = ListState::default();
    state.select(at);
    state
}

fn list_popups(at: Option<usize>) -> Vec<PopupState> {
    vec![
        PopupState::UserPlaylistList(PlaylistPopupAction::Browse, selected(at)),
        PopupState::UserPlaylistList(PlaylistPopupAction::AddTrack("t1".to_string()), selected(at)),
        PopupState::UserFollowedArtistList(selected(at)),
        PopupState::UserSavedAlbumList(selected(at)),
        PopupState::DeviceList(selected(at)),
        PopupState::ArtistList(ArtistPopupAction::Browse, vec![artist()], selected(at)),
        PopupState::ArtistList(ArtistPopupAction::ShowActions, vec![], selected(at)),
        PopupState::ThemeList(vec![Theme { name: "dark".to_string() }], selected(at)),
        PopupState::ActionList(ActionListItem::Track(track(), vec![TrackAction::AddToQueue]), selected(at)),
    ]
}

fn other_popups() -> Vec<PopupState> {
    vec![
        PopupState::CommandHelp { scroll_offset: 3 },
        PopupState::Search { query: "q".to_string() },
        PopupState::Queue { scroll_offset: 0 },
    ]
}

#[test]
fn n_actions_counts_the_actions() {
    assert_eq!(ActionListItem::Track(track(), vec![TrackAction::GoToArtist, TrackAction::AddToQueue]).n_actions(), 2);
    assert_eq!(ActionListItem::Artist(artist(), vec![]).n_actions(), 0);
    let album = Album { id: "al".to_string(), name: "An Album".to_string() };
    assert_eq!(ActionListItem::Album(album, vec![AlbumAction::AddToLibrary]).n_actions(), 1);
    let playlist = Playlist { id: "p".to_string(), name: "A Playlist".to_string() };
    assert_eq!(
        ActionListItem::Playlist(
            playlist,
            vec![PlaylistAction::GoToPlaylistRadio, PlaylistAction::AddToLibrary, PlaylistAction::CopyPlaylistLink]
        )
        .n_actions(),
        3
    );
}

#[test]
fn name_is_the_name_of_the_item() {
    assert_eq!(ActionListItem::Track(track(), vec![]).name(), "A Track");
    assert_eq!(ActionListItem::Artist(artist(), vec![ArtistAction::Follow]).name(), "An Artist");
    let album = Album { id: "al".to_string(), name: "An Album".to_string() };
    assert_eq!(ActionListItem::Album(album, vec![]).name(), "An Album");
    let playlist = Playlist { id: "p".to_string(), name: "".to_string() };
    assert_eq!(ActionListItem::Playlist(playlist, vec![]).name(), "");
}

#[test]
fn actions_desc_names_the_actions_in_order() {
    let item = ActionListItem::Track(
        track(),
        vec![TrackAction::GoToAlbum, TrackAction::DeleteFromLikedTracks, TrackAction::GoToAlbum],
    );
    assert_eq!(item.actions_desc(), vec!["GoToAlbum", "DeleteFromLikedTracks", "GoToAlbum"]);
    let item = ActionListItem::Artist(artist(), vec![ArtistAction::Unfollow, ArtistAction::CopyArtistLink]);
    assert_eq!(item.actions_desc(), vec!["Unfollow", "CopyArtistLink"]);
    let item = ActionListItem::Artist(artist(), vec![]);
    assert_eq!(item.actions_desc(), Vec::<String>::new());
}

#[test]
fn descriptions_are_the_names_of_the_variants() {
    let tracks = [
        TrackAction::GoToArtist,
        TrackAction::GoToAlbum,
        TrackAction::GoToTrackRadio,
        TrackAction::GoToArtistRadio,
        TrackAction::GoToAlbumRadio,
        TrackAction::AddToQueue,
        TrackAction::AddToPlaylist,
        TrackAction::DeleteFromCurrentPlaylist,
        TrackAction::AddToLikedTracks,
        TrackAction::DeleteFromLikedTracks,
        TrackAction::CopyTrackLink,
    ];
    for action in tracks {
        assert_eq!(action.description(), format!("{:?}", action));
    }
    for action in [ArtistAction::GoToArtistRadio, ArtistAction::Follow, ArtistAction::Unfollow, ArtistAction::CopyArtistLink] {
        assert_eq!(action.description(), format!("{:?}", action));
    }
    let albums = [
        AlbumAction::GoToArtist,
        AlbumAction::GoToAlbumRadio,
        AlbumAction::AddToLibrary,
        AlbumAction::DeleteFromLibrary,
        AlbumAction::CopyAlbumLink,
    ];
    for action in albums {
        assert_eq!(action.description(), format!("{:?}", action));
    }
    let playlists = [
        PlaylistAction::GoToPlaylistRadio,
        PlaylistAction::AddToLibrary,
        PlaylistAction::DeleteFromLibrary,
        PlaylistAction::CopyPlaylistLink,
    ];
    for action in playlists {
        assert_eq!(action.description(), format!("{:?}", action));
    }
}

#[test]
fn list_popups_have_a_list_state() {
    for popup in list_popups(Some(4)) {
        assert_eq!(popup.list_state().map(|s| s.selected()), Some(Some(4)), "{:?}", popup);
        assert_eq!(popup.list_selected(), Some(4));
    }
    for popup in list_popups(None) {
        assert_eq!(popup.list_state().map(|s| s.selected()), Some(None), "{:?}", popup);
        assert_eq!(popup.list_selected(), None);
    }
}

#[test]
fn other_popups_have_no_list_state() {
    for mut popup in other_popups() {
        assert!(popup.list_state().is_none(), "{:?}", popup);
        assert!(popup.list_state_mut().is_none());
        assert_eq!(popup.list_selected(), None);
    }
}

#[test]
fn list_select_moves_the_selection() {
    for mut popup in list_popups(Some(1)) {
        popup.list_select(Some(7));
        assert_eq!(popup.list_selected(), Some(7), "{:?}", popup);
        popup.list_select(None);
        assert_eq!(popup.list_selected(), None);
        popup.list_select(Some(0));
        assert_eq!(popup.list_selected(), Some(0));
    }
}

#[test]
fn list_select_leaves_the_rest_of_the_popup() {
    let mut popup = PopupState::ArtistList(ArtistPopupAction::ShowActions, vec![artist()], selected(None));
    popup.list_select(Some(2));
    match popup {
        PopupState::ArtistList(action, artists, state) => {
            assert_eq!(action, ArtistPopupAction::ShowActions);
            assert_eq!(artists, vec![artist()]);
            assert_eq!(state.selected(), Some(2));
        }
        other => panic!("became {:?}", other),
    }
    let mut popup = PopupState::UserPlaylistList(PlaylistPopupAction::AddTrack("x".to_string()), selected(Some(1)));
    popup.list_select(Some(3));
    match popup {
        PopupState::UserPlaylistList(action, state) => {
            assert_eq!(action, PlaylistPopupAction::AddTrack("x".to_string()));
            assert_eq!(state.selected(), Some(3));
        }
        other => panic!("became {:?}", other),
    }
}

#[test]
fn list_select_leaves_other_popups_alone() {
    let mut popup = PopupState::Search { query: "abc".to_string() };
    popup.list_select(Some(2));
    assert!(matches!(&popup, PopupState::Search { query } if query == "abc"));
    let mut popup = PopupState::CommandHelp { scroll_offset: 9 };
    popup.list_select(None);
    assert!(matches!(popup, PopupState::CommandHelp { scroll_offset: 9 }));
    let mut popup = PopupState::Queue { scroll_offset: 2 };
    popup.list_select(Some(1));
    assert!(matches!(popup, PopupState::Queue { scroll_offset: 2 }));
}

#[test]
fn list_state_mut_reaches_the_state_of_the_popup() {
    for mut popup in list_popups(Some(1)) {
        match popup.list_state_mut() {
            Some(state) => state.select(Some(5)),
            None => panic!("no list state"),
        }
        assert_eq!(popup.list_selected(), Some(5));
    }
}
