use spotify_player::command::Command;
use spotify_player::page::{
    handle_key_sequence_for_browse_page, handle_key_sequence_for_context_page,
    handle_key_sequence_for_library_page, handle_key_sequence_for_search_page,
    handle_navigation_commands_for_page, BrowseAction, BrowseList, BrowsePageOutcome,
    ContextPageAction, LibraryFocusState, LibraryPageAction, Navigation, SearchFocusState,
    SearchPageAction,
};

fn done(select: Option<usize>) -> Navigation {
    Navigation { select, done: true }
}

#[test]
fn next_moves_one_down_up_to_the_end() {
    assert_eq!(handle_navigation_commands_for_page(Command::SelectNextOrScrollDown, 5, 2, 3), done(Some(3)));
    assert_eq!(handle_navigation_commands_for_page(Command::SelectNextOrScrollDown, 5, 3, 3), done(Some(4)));
    assert_eq!(handle_navigation_commands_for_page(Command::SelectNextOrScrollDown, 5, 4, 3), done(None));
    assert_eq!(handle_navigation_commands_for_page(Command::SelectNextOrScrollDown, 1, 0, 3), done(None));
}

#[test]
fn previous_moves_one_up_down_to_the_start() {
    assert_eq!(handle_navigation_commands_for_page(Command::SelectPreviousOrScrollUp, 5, 2, 3), done(Some(1)));
    assert_eq!(handle_navigation_commands_for_page(Command::SelectPreviousOrScrollUp, 5, 1, 3), done(Some(0)));
    assert_eq!(handle_navigation_commands_for_page(Command::SelectPreviousOrScrollUp, 5, 0, 3), done(None));
}

#[test]
fn page_next_moves_a_page_down_up_to_the_end() {
    assert_eq!(handle_navigation_commands_for_page(Command::PageSelectNextOrScrollDown, 50, 2, 20), done(Some(22)));
    assert_eq!(handle_navigation_commands_for_page(Command::PageSelectNextOrScrollDown, 50, 29, 20), done(Some(49)));
    assert_eq!(handle_navigation_commands_for_page(Command::PageSelectNextOrScrollDown, 50, 28, 20), done(Some(48)));
    assert_eq!(handle_navigation_commands_for_page(Command::PageSelectNextOrScrollDown, 50, 45, 20), done(Some(49)));
    assert_eq!(handle_navigation_commands_for_page(Command::PageSelectNextOrScrollDown, 50, 49, usize::MAX), done(Some(49)));
    assert_eq!(handle_navigation_commands_for_page(Command::PageSelectNextOrScrollDown, 50, 7, 0), done(Some(7)));
}

#[test]
fn page_previous_moves_a_page_up_down_to_the_start() {
    assert_eq!(handle_navigation_commands_for_page(Command::PageSelectPreviousOrScrollUp, 50, 30, 20), done(Some(10)));
    assert_eq!(handle_navigation_commands_for_page(Command::PageSelectPreviousOrScrollUp, 50, 20, 20), done(Some(0)));
    assert_eq!(handle_navigation_commands_for_page(Command::PageSelectPreviousOrScrollUp, 50, 3, 20), done(Some(0)));
    assert_eq!(handle_navigation_commands_for_page(Command::PageSelectPreviousOrScrollUp, 50, 3, usize::MAX), done(Some(0)));
}

#[test]
fn jumps_select_and_leave_the_command_open() {
    assert_eq!(
        handle_navigation_commands_for_page(Command::SelectLastOrScrollToBottom, 50, 3, 20),
        Navigation { select: Some(49), done: false }
    );
    assert_eq!(
        handle_navigation_commands_for_page(Command::SelectFirstOrScrollToTop, 50, 3, 20),
        Navigation { select: Some(0), done: false }
    );
}

#[test]
fn a_selection_past_the_end_is_moved_like_any_other() {
    assert_eq!(handle_navigation_commands_for_page(Command::SelectNextOrScrollDown, 5, 9, 3), done(None));
    assert_eq!(handle_navigation_commands_for_page(Command::SelectPreviousOrScrollUp, 5, 9, 3), done(Some(8)));
    assert_eq!(handle_navigation_commands_for_page(Command::PageSelectNextOrScrollDown, 5, 9, 3), done(Some(4)));
    assert_eq!(handle_navigation_commands_for_page(Command::PageSelectNextOrScrollDown, 5, usize::MAX, usize::MAX), done(Some(4)));
    assert_eq!(handle_navigation_commands_for_page(Command::PageSelectPreviousOrScrollUp, 5, 9, 3), done(Some(6)));
}

#[test]
fn other_commands_do_not_navigate() {
    for command in [Command::ChooseSelected, Command::Search, Command::Quit, Command::ClosePopup] {
        assert_eq!(
            handle_navigation_commands_for_page(command, 50, 3, 20),
            Navigation { select: None, done: false }
        );
    }
}

#[test]
fn library_page_without_command_is_not_handled() {
    for focus in [LibraryFocusState::Playlists, LibraryFocusState::SavedAlbums, LibraryFocusState::FollowedArtists] {
        assert_eq!(handle_key_sequence_for_library_page(None, focus), LibraryPageAction::NotHandled);
    }
}

#[test]
fn library_page_search_opens_the_popup() {
    for focus in [LibraryFocusState::Playlists, LibraryFocusState::SavedAlbums, LibraryFocusState::FollowedArtists] {
        assert_eq!(
            handle_key_sequence_for_library_page(Some(Command::Search), focus),
            LibraryPageAction::OpenSearchPopup
        );
    }
}

#[test]
fn library_page_hands_commands_to_the_focused_window() {
    let c = Command::SelectNextOrScrollDown;
    assert_eq!(
        handle_key_sequence_for_library_page(Some(c), LibraryFocusState::Playlists),
        LibraryPageAction::PlaylistListWindow(c)
    );
    assert_eq!(
        handle_key_sequence_for_library_page(Some(c), LibraryFocusState::SavedAlbums),
        LibraryPageAction::AlbumListWindow(c)
    );
    assert_eq!(
        handle_key_sequence_for_library_page(Some(Command::ChooseSelected), LibraryFocusState::FollowedArtists),
        LibraryPageAction::ArtistListWindow(Command::ChooseSelected)
    );
}

#[test]
fn search_page_input_takes_the_keys() {
    for command in [None, Some(Command::Quit), Some(Command::Search)] {
        assert_eq!(
            handle_key_sequence_for_search_page(SearchFocusState::Input, true, false, command),
            SearchPageAction::SubmitQuery
        );
        assert_eq!(
            handle_key_sequence_for_search_page(SearchFocusState::Input, true, true, command),
            SearchPageAction::Nothing
        );
        assert_eq!(
            handle_key_sequence_for_search_page(SearchFocusState::Input, false, true, command),
            SearchPageAction::EditInput
        );
        assert_eq!(
            handle_key_sequence_for_search_page(SearchFocusState::Input, false, false, command),
            SearchPageAction::EditInput
        );
    }
}

#[test]
fn search_page_results_take_commands() {
    let c = Command::ChooseSelected;
    assert_eq!(
        handle_key_sequence_for_search_page(SearchFocusState::Tracks, true, false, Some(c)),
        SearchPageAction::TrackListWindow(c)
    );
    assert_eq!(
        handle_key_sequence_for_search_page(SearchFocusState::Artists, false, false, Some(c)),
        SearchPageAction::ArtistListWindow(c)
    );
    assert_eq!(
        handle_key_sequence_for_search_page(SearchFocusState::Albums, false, true, Some(c)),
        SearchPageAction::AlbumListWindow(c)
    );
    assert_eq!(
        handle_key_sequence_for_search_page(SearchFocusState::Playlists, true, true, Some(Command::Search)),
        SearchPageAction::PlaylistListWindow(Command::Search)
    );
    for focus in [SearchFocusState::Tracks, SearchFocusState::Artists, SearchFocusState::Albums, SearchFocusState::Playlists] {
        assert_eq!(handle_key_sequence_for_search_page(focus, true, false, None), SearchPageAction::NotHandled);
    }
}

#[test]
fn context_page_decides_by_the_command() {
    assert_eq!(handle_key_sequence_for_context_page(None), ContextPageAction::NotHandled);
    assert_eq!(handle_key_sequence_for_context_page(Some(Command::Search)), ContextPageAction::OpenSearchPopup);
    assert_eq!(
        handle_key_sequence_for_context_page(Some(Command::ChooseSelected)),
        ContextPageAction::FocusedWindow(Command::ChooseSelected)
    );
    assert_eq!(
        handle_key_sequence_for_context_page(Some(Command::SelectFirstOrScrollToTop)),
        ContextPageAction::FocusedWindow(Command::SelectFirstOrScrollToTop)
    );
}

fn untouched() -> BrowsePageOutcome {
    BrowsePageOutcome { handled: false, select: None, action: BrowseAction::Nothing }
}

#[test]
fn browse_page_needs_a_command_and_a_selection_in_range() {
    assert_eq!(handle_key_sequence_for_browse_page(None, BrowseList::Categories, 5, Some(1), 3), untouched());
    let c = Some(Command::ChooseSelected);
    assert_eq!(handle_key_sequence_for_browse_page(c, BrowseList::Categories, 5, Some(5), 3), untouched());
    assert_eq!(handle_key_sequence_for_browse_page(c, BrowseList::Categories, 0, None, 3), untouched());
    assert_eq!(handle_key_sequence_for_browse_page(c, BrowseList::CategoryPlaylists, 0, Some(0), 3), untouched());
}

#[test]
fn browse_page_navigates() {
    assert_eq!(
        handle_key_sequence_for_browse_page(Some(Command::SelectNextOrScrollDown), BrowseList::Categories, 5, Some(1), 3),
        BrowsePageOutcome { handled: true, select: Some(2), action: BrowseAction::Nothing }
    );
    assert_eq!(
        handle_key_sequence_for_browse_page(Some(Command::SelectNextOrScrollDown), BrowseList::Categories, 5, None, 3),
        BrowsePageOutcome { handled: true, select: Some(1), action: BrowseAction::Nothing }
    );
    assert_eq!(
        handle_key_sequence_for_browse_page(Some(Command::SelectPreviousOrScrollUp), BrowseList::Categories, 5, Some(0), 3),
        BrowsePageOutcome { handled: true, select: None, action: BrowseAction::Nothing }
    );
    assert_eq!(
        handle_key_sequence_for_browse_page(Some(Command::PageSelectNextOrScrollDown), BrowseList::CategoryPlaylists, 5, Some(1), 3),
        BrowsePageOutcome { handled: true, select: Some(4), action: BrowseAction::Nothing }
    );
    assert_eq!(
        handle_key_sequence_for_browse_page(Some(Command::PageSelectPreviousOrScrollUp), BrowseList::CategoryPlaylists, 5, Some(4), 3),
        BrowsePageOutcome { handled: true, select: Some(1), action: BrowseAction::Nothing }
    );
}

#[test]
fn browse_page_jumps_select_without_taking_the_key() {
    assert_eq!(
        handle_key_sequence_for_browse_page(Some(Command::SelectLastOrScrollToBottom), BrowseList::Categories, 5, Some(1), 3),
        BrowsePageOutcome { handled: false, select: Some(4), action: BrowseAction::Nothing }
    );
    assert_eq!(
        handle_key_sequence_for_browse_page(Some(Command::SelectFirstOrScrollToTop), BrowseList::Categories, 5, Some(3), 3),
        BrowsePageOutcome { handled: false, select: Some(0), action: BrowseAction::Nothing }
    );
}

#[test]
fn browse_page_opens_what_is_selected() {
    assert_eq!(
        handle_key_sequence_for_browse_page(Some(Command::ChooseSelected), BrowseList::Categories, 5, Some(3), 3),
        BrowsePageOutcome { handled: true, select: None, action: BrowseAction::OpenCategory(3) }
    );
    assert_eq!(
        handle_key_sequence_for_browse_page(Some(Command::ChooseSelected), BrowseList::CategoryPlaylists, 5, None, 3),
        BrowsePageOutcome { handled: true, select: None, action: BrowseAction::OpenPlaylist(0) }
    );
}

#[test]
fn browse_page_search_opens_the_popup() {
    assert_eq!(
        handle_key_sequence_for_browse_page(Some(Command::Search), BrowseList::Categories, 5, Some(3), 3),
        BrowsePageOutcome { handled: true, select: Some(0), action: BrowseAction::OpenSearchPopup }
    );
}

#[test]
fn browse_page_leaves_other_commands() {
    for command in [Command::Quit, Command::ClosePopup, Command::NextTrack] {
        assert_eq!(
            handle_key_sequence_for_browse_page(Some(command), BrowseList::Categories, 5, Some(3), 3),
            untouched()
        );
    }
}
