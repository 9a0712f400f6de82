//! What a key sequence does on the library, search, context and browse
//! pages. Each handler decides; the application carries the decision out.

use crate::command::Command;
use vstd::prelude::*;

verus! {

/// What moving through a list of `len` items comes to.
#[derive(Debug, Clone, Copy, PartialEq, Eq, Structural)]
pub struct Navigation {
    /// The position to select, where the selection changes.
    pub select: Option<usize>,
    /// Whether the command is done with: the two jumps to either end move
    /// the selection and still leave the command to the page.
    pub done: bool,
}

/// What a navigation command does to the selection `id` in a list of `len`
/// items, where a page is `page_size` rows.
pub open spec fn navigation(command: Command, len: int, id: int, page_size: int) -> Navigation {
    match command {
        Command::SelectNextOrScrollDown => Navigation {
            select: if id + 1 < len {
                Some((id + 1) as usize)
            } else {
                None
            },
            done: true,
        },
        Command::SelectPreviousOrScrollUp => Navigation {
            select: if id > 0 {
                Some((id - 1) as usize)
            } else {
                None
            },
            done: true,
        },
        Command::PageSelectNextOrScrollDown => Navigation {
            select: Some(
                (if id + page_size < len - 1 {
                    id + page_size
                } else {
                    len - 1
                }) as usize,
            ),
            done: true,
        },
        Command::PageSelectPreviousOrScrollUp => Navigation {
            select: Some(
                (if id >= page_size {
                    id - page_size
                } else {
                    0
                }) as usize,
            ),
            done: true,
        },
        Command::SelectLastOrScrollToBottom => Navigation {
            select: if len > 0 {
                Some((len - 1) as usize)
            } else {
                None
            },
            done: false,
        },
        Command::SelectFirstOrScrollToTop => Navigation { select: Some(0), done: false },
        _ => Navigation { select: None, done: false },
    }
}

/// Moves the selection `id` of a list of `len` items as `command` says:
/// one item or one page down or up, never past either end, or to either
/// end. Any other command changes nothing. The list is not empty.
pub fn handle_navigation_commands_for_page(
    command: Command,
    len: usize,
    id: usize,
    page_size_in_rows: usize,
) -> (moved: Navigation)
    requires
        len > 0,
    ensures
        moved == navigation(command, len as int, id as int, page_size_in_rows as int),
        id < len && moved.select is Some ==> moved.select.unwrap() < len,
{
    match command {
        Command::SelectNextOrScrollDown => Navigation {
            select: if id < len - 1 {
                Some(id + 1)
            } else {
                None
            },
            done: true,
        },
        Command::SelectPreviousOrScrollUp => Navigation {
            select: if id > 0 {
                Some(id - 1)
            } else {
                None
            },
            done: true,
        },
        Command::PageSelectNextOrScrollDown => Navigation {
            select: Some(
                if id < len - 1 && page_size_in_rows < len - 1 - id {
                    id + page_size_in_rows
                } else {
                    len - 1
                },
            ),
            done: true,
        },
        Command::PageSelectPreviousOrScrollUp => Navigation {
            select: Some(id.saturating_sub(page_size_in_rows)),
            done: true,
        },
        Command::SelectLastOrScrollToBottom => Navigation { select: Some(len - 1), done: false },
        Command::SelectFirstOrScrollToTop => Navigation { select: Some(0), done: false },
        _ => Navigation { select: None, done: false },
    }
}

/// The window of the library page that has the focus.
#[derive(Debug, Clone, Copy, PartialEq, Eq, Structural)]
pub enum LibraryFocusState {
    Playlists,
    SavedAlbums,
    FollowedArtists,
}

/// What a key sequence does on the library page.
#[derive(Debug, Clone, Copy, PartialEq, Eq, Structural)]
pub enum LibraryPageAction {
    /// The key sequence maps to no command: the page does not take it.
    NotHandled,
    /// Select the first item and open the search popup with an empty query.
    OpenSearchPopup,
    /// Hand the command to the playlist list window.
    PlaylistListWindow(Command),
    /// Hand the command to the album list window.
    AlbumListWindow(Command),
    /// Hand the command to the artist list window.
    ArtistListWindow(Command),
}

/// What the library page does with `command` while `focus` has the focus.
pub open spec fn library_page_action(
    command: Option<Command>,
    focus: LibraryFocusState,
) -> LibraryPageAction {
    match command {
        None => LibraryPageAction::NotHandled,
        Some(Command::Search) => LibraryPageAction::OpenSearchPopup,
        Some(c) => match focus {
            LibraryFocusState::Playlists => LibraryPageAction::PlaylistListWindow(c),
            LibraryFocusState::SavedAlbums => LibraryPageAction::AlbumListWindow(c),
            LibraryFocusState::FollowedArtists => LibraryPageAction::ArtistListWindow(c),
        },
    }
}

/// Handles the command that a key sequence maps to on the library page:
/// search opens the search popup, and every other command goes to the window
/// that has the focus.
pub fn handle_key_sequence_for_library_page(
    command: Option<Command>,
    focus: LibraryFocusState,
) -> (action: LibraryPageAction)
    ensures
        action == library_page_action(command, focus),
{
    let command = match command {
        Some(command) => command,
        None => {
            return LibraryPageAction::NotHandled;
        },
    };
    match command {
        Command::Search => LibraryPageAction::OpenSearchPopup,
        _ => match focus {
            LibraryFocusState::Playlists => LibraryPageAction::PlaylistListWindow(command),
            LibraryFocusState::SavedAlbums => LibraryPageAction::AlbumListWindow(command),
            LibraryFocusState::FollowedArtists => LibraryPageAction::ArtistListWindow(command),
        },
    }
}

/// The part of the search page that has the focus.
#[derive(Debug, Clone, Copy, PartialEq, Eq, Structural)]
pub enum SearchFocusState {
    Input,
    Tracks,
    Albums,
    Artists,
    Playlists,
}

/// What a key sequence does on the search page.
#[derive(Debug, Clone, Copy, PartialEq, Eq, Structural)]
pub enum SearchPageAction {
    /// The page does not take the key sequence.
    NotHandled,
    /// Make the text of the input line the current query and search for it.
    SubmitQuery,
    /// Enter on an empty input line: taken, with nothing to do.
    Nothing,
    /// Hand the key sequence to the input line, which says whether it took it.
    EditInput,
    /// Hand the command to the window of the track results.
    TrackListWindow(Command),
    /// Hand the command to the window of the artist results.
    ArtistListWindow(Command),
    /// Hand the command to the window of the album results.
    AlbumListWindow(Command),
    /// Hand the command to the window of the playlist results.
    PlaylistListWindow(Command),
}

/// What the search page does with a key sequence. `is_enter` says that the
/// key sequence is the single key Enter, `input_is_empty` that the input
/// line holds no text; `command` is what the key sequence maps to.
pub open spec fn search_page_action(
    focus: SearchFocusState,
    is_enter: bool,
    input_is_empty: bool,
    command: Option<Command>,
) -> SearchPageAction {
    if focus == SearchFocusState::Input {
        if is_enter {
            if input_is_empty {
                SearchPageAction::Nothing
            } else {
                SearchPageAction::SubmitQuery
            }
        } else {
            SearchPageAction::EditInput
        }
    } else {
        match command {
            None => SearchPageAction::NotHandled,
            Some(c) => match focus {
                SearchFocusState::Tracks => SearchPageAction::TrackListWindow(c),
                SearchFocusState::Artists => SearchPageAction::ArtistListWindow(c),
                SearchFocusState::Albums => SearchPageAction::AlbumListWindow(c),
                _ => SearchPageAction::PlaylistListWindow(c),
            },
        }
    }
}

/// Handles a key sequence on the search page. While the input line has the
/// focus the keys are the user's text: Enter submits what was typed, every
/// other key goes to the input line. Else the command goes to the window of
/// results that has the focus.
pub fn handle_key_sequence_for_search_page(
    focus: SearchFocusState,
    is_enter: bool,
    input_is_empty: bool,
    command: Option<Command>,
) -> (action: SearchPageAction)
    ensures
        action == search_page_action(focus, is_enter, input_is_empty, command),
{
    if let SearchFocusState::Input = focus {
        if is_enter {
            if !input_is_empty {
                return SearchPageAction::SubmitQuery;
            }
            return SearchPageAction::Nothing;
        }
        return SearchPageAction::EditInput;
    }
    let command = match command {
        Some(command) => command,
        None => {
            return SearchPageAction::NotHandled;
        },
    };
    match focus {
        SearchFocusState::Input => SearchPageAction::EditInput,
        SearchFocusState::Tracks => SearchPageAction::TrackListWindow(command),
        SearchFocusState::Artists => SearchPageAction::ArtistListWindow(command),
        SearchFocusState::Albums => SearchPageAction::AlbumListWindow(command),
        SearchFocusState::Playlists => SearchPageAction::PlaylistListWindow(command),
    }
}

/// What a key sequence does on a context page.
#[derive(Debug, Clone, Copy, PartialEq, Eq, Structural)]
pub enum ContextPageAction {
    /// The key sequence maps to no command: the page does not take it.
    NotHandled,
    /// Select the first item and open the search popup with an empty query.
    OpenSearchPopup,
    /// Hand the command to the window that has the focus.
    FocusedWindow(Command),
}

/// What a context page does with `command`.
pub open spec fn context_page_action(command: Option<Command>) -> ContextPageAction {
    match command {
        None => ContextPageAction::NotHandled,
        Some(Command::Search) => ContextPageAction::OpenSearchPopup,
        Some(c) => ContextPageAction::FocusedWindow(c),
    }
}

/// Handles the command that a key sequence maps to on a context page:
/// search opens the search popup, and every other command goes to the window
/// that has the focus.
pub fn handle_key_sequence_for_context_page(command: Option<Command>) -> (action:
    ContextPageAction)
    ensures
        action == context_page_action(command),
{
    match command {
        None => ContextPageAction::NotHandled,
        Some(Command::Search) => ContextPageAction::OpenSearchPopup,
        Some(command) => ContextPageAction::FocusedWindow(command),
    }
}

/// What the browse page lists.
#[derive(Debug, Clone, Copy, PartialEq, Eq, Structural)]
pub enum BrowseList {
    /// The categories.
    Categories,
    /// The playlists of one category.
    CategoryPlaylists,
}

/// What the application does for the browse page besides selecting.
#[derive(Debug, Clone, Copy, PartialEq, Eq, Structural)]
pub enum BrowseAction {
    Nothing,
    /// Ask for the playlists of the category at this position and open the
    /// page that lists them.
    OpenCategory(usize),
    /// Open the context page of the playlist at this position.
    OpenPlaylist(usize),
    /// Open the search popup with an empty query.
    OpenSearchPopup,
}

/// What handling a key sequence on the browse page came to.
#[derive(Debug, Clone, Copy, PartialEq, Eq, Structural)]
pub struct BrowsePageOutcome {
    /// Whether the page took the key sequence.
    pub handled: bool,
    /// The position to select, where the selection changes.
    pub select: Option<usize>,
    pub action: BrowseAction,
}

/// What the browse page does with `command` while it lists `len` items of
/// which `selected` is selected.
pub open spec fn browse_page_outcome(
    command: Option<Command>,
    list: BrowseList,
    len: usize,
    selected: Option<usize>,
    page_size: usize,
) -> BrowsePageOutcome {
    let id = match selected {
        Some(id) => id,
        None => 0,
    };
    if command is None || id >= len {
        BrowsePageOutcome { handled: false, select: None, action: BrowseAction::Nothing }
    } else {
        let moved = navigation(command.unwrap(), len as int, id as int, page_size as int);
        if moved.done {
            BrowsePageOutcome { handled: true, select: moved.select, action: BrowseAction::Nothing }
        } else if command.unwrap() == Command::ChooseSelected {
            BrowsePageOutcome {
                handled: true,
                select: None,
                action: match list {
                    BrowseList::Categories => BrowseAction::OpenCategory(id),
                    BrowseList::CategoryPlaylists => BrowseAction::OpenPlaylist(id),
                },
            }
        } else if command.unwrap() == Command::Search {
            BrowsePageOutcome {
                handled: true,
                select: Some(0),
                action: BrowseAction::OpenSearchPopup,
            }
        } else {
            BrowsePageOutcome { handled: false, select: moved.select, action: BrowseAction::Nothing }
        }
    }
}

/// Handles the command that a key sequence maps to on the browse page.
/// `len` is the number of items listed and `selected` the position
/// selected, the first where none is. Navigation moves the selection,
/// choosing opens what is selected, search opens the search popup.
pub fn handle_key_sequence_for_browse_page(
    command: Option<Command>,
    list: BrowseList,
    len: usize,
    selected: Option<usize>,
    page_size_in_rows: usize,
) -> (outcome: BrowsePageOutcome)
    ensures
        outcome == browse_page_outcome(command, list, len, selected, page_size_in_rows),
        outcome.select is Some ==> outcome.select.unwrap() < len,
        outcome.action matches BrowseAction::OpenCategory(at) ==> at < len,
        outcome.action matches BrowseAction::OpenPlaylist(at) ==> at < len,
{
    let not_handled = BrowsePageOutcome {
        handled: false,
        select: None,
        action: BrowseAction::Nothing,
    };
    let command = match command {
        Some(command) => command,
        None => {
            return not_handled;
        },
    };
    let id: usize = match selected {
        Some(id) => id,
        None => 0,
    };
    if id >= len {
        return not_handled;
    }
    let moved = handle_navigation_commands_for_page(command, len, id, page_size_in_rows);
    if moved.done {
        return BrowsePageOutcome {
            handled: true,
            select: moved.select,
            action: BrowseAction::Nothing,
        };
    }
    match command {
        Command::ChooseSelected => BrowsePageOutcome {
            handled: true,
            select: None,
            action: match list {
                BrowseList::Categories => BrowseAction::OpenCategory(id),
                BrowseList::CategoryPlaylists => BrowseAction::OpenPlaylist(id),
            },
        },
        Command::Search => BrowsePageOutcome {
            handled: true,
            select: Some(0),
            action: BrowseAction::OpenSearchPopup,
        },
        _ => BrowsePageOutcome { handled: false, select: moved.select, action: BrowseAction::Nothing },
    }
}

} // verus!
