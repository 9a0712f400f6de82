//! The lyric page: following the line that is sung, or seeking with a cursor.

use crate::command::Command;
use crate::lyrics::{LyricResults, Lyrics};
use vstd::prelude::*;

verus! {

/// Where "go to last" puts the cursor before it is clamped.
pub const LAST_LINE_SENTINEL: usize = 1024;

/// How the lyric page picks the line it shows.
#[derive(Debug, Clone, Copy, PartialEq, Eq, Structural)]
pub enum LyricMode {
    /// The page follows playback and shows the line that is sung now.
    SyncedView,
    /// The user moves a cursor over the lines, apart from playback.
    Seek { cursor: usize },
}

/// `chrono::Duration`, a span of time, which Verus carries through without
/// looking inside.
#[verifier::external_type_specification]
#[verifier::external_body]
pub struct ExDuration(chrono::Duration);

/// The span of time that `chrono::Duration::try_milliseconds` makes of a
/// count of milliseconds.
pub uninterp spec fn duration_of_millis(milliseconds: i64) -> chrono::Duration;

/// Whether `chrono` has a span of that many milliseconds: it has one for
/// every count but the least `i64`.
pub open spec fn has_duration(milliseconds: i64) -> bool {
    milliseconds >= -i64::MAX
}

/// Calls `chrono::Duration::try_milliseconds`, which refuses a count below
/// `-i64::MAX` and no other; the span it makes goes by the name
/// [`duration_of_millis`].
#[verifier::external_body]
fn duration_from_millis(milliseconds: i64) -> (span: Option<chrono::Duration>)
    ensures
        span is Some <==> has_duration(milliseconds),
        span is Some ==> span == Some(duration_of_millis(milliseconds)),
{
    chrono::Duration::try_milliseconds(milliseconds)
}

/// What the caller has to do after a command.
#[derive(Debug, PartialEq, Eq)]
pub enum LyricPageEffect {
    Nothing,
    /// Seek playback to this offset into the track.
    SeekTrack(chrono::Duration),
    /// Hand this text to the clipboard.
    CopyLine(String),
}

/// The mathematical value of a [`LyricPageEffect`].
pub enum PageEffect {
    Nothing,
    SeekTrack(chrono::Duration),
    CopyLine(Seq<char>),
}

impl View for LyricPageEffect {
    type V = PageEffect;

    open spec fn view(&self) -> PageEffect {
        match self {
            LyricPageEffect::Nothing => PageEffect::Nothing,
            LyricPageEffect::SeekTrack(offset) => PageEffect::SeekTrack(*offset),
            LyricPageEffect::CopyLine(text) => PageEffect::CopyLine(text@),
        }
    }
}

/// What handling a key sequence on the lyric page came to.
#[derive(Debug, PartialEq, Eq)]
pub struct LyricPageOutcome {
    /// Whether the page took the key sequence.
    pub handled: bool,
    pub effect: LyricPageEffect,
}

/// The greatest cursor that `lyrics` allows: its last line, or 0 where there
/// are no lyrics or no lines.
pub open spec fn last_cursor(lyrics: Option<Lyrics>) -> int {
    match lyrics {
        Some(l) => if l.len() > 0 {
            l.len() - 1
        } else {
            0
        },
        None => 0,
    }
}

/// A cursor brought into range: no greater than the last line, and 0 where
/// the lyrics are not known.
pub open spec fn clamped(cursor: int, lyrics: Option<Lyrics>) -> int {
    if cursor > last_cursor(lyrics) {
        last_cursor(lyrics)
    } else {
        cursor
    }
}

/// Where a navigation command moves the cursor, before it is clamped.
pub open spec fn moved(command: Command, cursor: int, page_size: int) -> int {
    match command {
        Command::SelectNextOrScrollDown => cursor + 1,
        Command::SelectPreviousOrScrollUp => if cursor >= 1 {
            cursor - 1
        } else {
            0
        },
        Command::PageSelectNextOrScrollDown => cursor + page_size,
        Command::PageSelectPreviousOrScrollUp => if cursor >= page_size {
            cursor - page_size
        } else {
            0
        },
        Command::SelectFirstOrScrollToTop => 0,
        Command::SelectLastOrScrollToBottom => LAST_LINE_SENTINEL as int,
        _ => cursor,
    }
}

/// Whether the lyric page takes `command`.
pub open spec fn handles(command: Option<Command>) -> bool {
    match command {
        Some(c) => c.is_navigation() || c == Command::ClosePopup || c == Command::ChooseSelected
            || c == Command::CopySelectedLine,
        None => false,
    }
}

/// The line that a mode points at: the cursor while seeking, else the line
/// that is sung.
pub open spec fn pointed_line(mode: LyricMode, current_line: Option<usize>) -> Option<usize> {
    match mode {
        LyricMode::SyncedView => current_line,
        LyricMode::Seek { cursor } => Some(cursor),
    }
}

/// The mode after `command`.
pub open spec fn next_mode(
    command: Option<Command>,
    mode: LyricMode,
    current_line: Option<usize>,
    lyrics: Option<Lyrics>,
    page_size: usize,
) -> LyricMode {
    if !handles(command) {
        mode
    } else if command.unwrap().is_navigation() {
        match mode {
            LyricMode::SyncedView => LyricMode::Seek {
                cursor: clamped(
                    match current_line {
                        Some(line) => line as int,
                        None => 0,
                    },
                    lyrics,
                ) as usize,
            },
            LyricMode::Seek { cursor } => LyricMode::Seek {
                cursor: clamped(
                    moved(command.unwrap(), cursor as int, page_size as int),
                    lyrics,
                ) as usize,
            },
        }
    } else {
        LyricMode::SyncedView
    }
}

/// What the caller has to do after `command`.
pub open spec fn effect_of(
    command: Option<Command>,
    mode: LyricMode,
    current_line: Option<usize>,
    lyrics: Option<Lyrics>,
) -> PageEffect {
    if command == Some(Command::ChooseSelected) {
        match (mode, lyrics) {
            (LyricMode::Seek { cursor }, Some(Lyrics::Synced(lines))) => if cursor < lines.len()
                && has_duration(lines[cursor as int].start_time_ms) {
                PageEffect::SeekTrack(duration_of_millis(lines[cursor as int].start_time_ms))
            } else {
                PageEffect::Nothing
            },
            _ => PageEffect::Nothing,
        }
    } else if command == Some(Command::CopySelectedLine) {
        match (pointed_line(mode, current_line), lyrics) {
            (Some(line), Some(l)) => if line < l.len() {
                PageEffect::CopyLine(l.words(line as int))
            } else {
                PageEffect::Nothing
            },
            _ => PageEffect::Nothing,
        }
    } else {
        PageEffect::Nothing
    }
}

/// While the page follows playback, each navigation command starts seeking
/// at the line that is sung, or at the first line where none is; the cursor
/// is that very line where it lies within the lyrics.
pub proof fn lemma_navigation_starts_seeking(
    command: Command,
    current_line: Option<usize>,
    lyrics: Option<Lyrics>,
    page_size: usize,
)
    requires
        command.is_navigation(),
    ensures
        ({
            let start = match current_line {
                Some(line) => line as int,
                None => 0,
            };
            let next = next_mode(
                Some(command),
                LyricMode::SyncedView,
                current_line,
                lyrics,
                page_size,
            );
            &&& next is Seek
            &&& next->cursor == clamped(start, lyrics)
            &&& start <= last_cursor(lyrics) ==> next->cursor == start
            &&& lyrics is Some && lyrics.unwrap().len() > 0 ==> next->cursor < lyrics.unwrap().len()
        }),
{
}

/// While the page seeks, each navigation command moves the cursor: one line
/// or one page down or up, stopping at the first line, to the first line, or
/// towards the last. Wherever it went, the cursor ends within the lyrics
/// where there are lines, and at 0 where there are none or none are known.
/// The lyrics are such as a [`LyricResults`] can hold.
pub proof fn lemma_navigation_moves_cursor(
    command: Command,
    cursor: usize,
    current_line: Option<usize>,
    lyrics: Option<Lyrics>,
    page_size: usize,
)
    requires
        command.is_navigation(),
        lyrics is Some ==> lyrics.unwrap().len() <= usize::MAX,
    ensures
        ({
            let next = next_mode(
                Some(command),
                LyricMode::Seek { cursor },
                current_line,
                lyrics,
                page_size,
            );
            &&& next is Seek
            &&& next->cursor == clamped(moved(command, cursor as int, page_size as int), lyrics)
            &&& lyrics is Some && lyrics.unwrap().len() > 0 ==> 0 <= next->cursor
                < lyrics.unwrap().len()
            &&& lyrics is None || lyrics.unwrap().len() == 0 ==> next->cursor == 0
        }),
{
}

/// Confirming the selection while the cursor is on line `cursor` of synced
/// lyrics asks to seek playback to that line's start and goes back to
/// following playback. The start is one that `chrono` has a span for.
pub proof fn lemma_confirm_seeks_to_line(
    cursor: usize,
    current_line: Option<usize>,
    lyrics: Lyrics,
    page_size: usize,
)
    requires
        lyrics is Synced,
        cursor < lyrics.len(),
        has_duration(lyrics->Synced_0[cursor as int].start_time_ms),
    ensures
        effect_of(
            Some(Command::ChooseSelected),
            LyricMode::Seek { cursor },
            current_line,
            Some(lyrics),
        ) == PageEffect::SeekTrack(
            duration_of_millis(lyrics->Synced_0[cursor as int].start_time_ms),
        ),
        next_mode(
            Some(Command::ChooseSelected),
            LyricMode::Seek { cursor },
            current_line,
            Some(lyrics),
            page_size,
        ) == LyricMode::SyncedView,
{
}

/// Confirming the selection over unsynced lyrics asks for nothing and goes
/// back to following playback.
pub proof fn lemma_confirm_without_times(
    cursor: usize,
    current_line: Option<usize>,
    lyrics: Lyrics,
    page_size: usize,
)
    requires
        lyrics is UnSynced,
    ensures
        effect_of(
            Some(Command::ChooseSelected),
            LyricMode::Seek { cursor },
            current_line,
            Some(lyrics),
        ) == PageEffect::Nothing,
        next_mode(
            Some(Command::ChooseSelected),
            LyricMode::Seek { cursor },
            current_line,
            Some(lyrics),
            page_size,
        ) == LyricMode::SyncedView,
{
}

/// The view of the lyrics in a cache entry.
pub open spec fn entry_view(cache_entry: Option<&LyricResults>) -> Option<Lyrics> {
    match cache_entry {
        Some(lyrics) => Some(lyrics@),
        None => None,
    }
}

/// Brings `cursor` into range of the lyrics in `cache_entry`.
fn clamp_cursor(cursor: usize, cache_entry: Option<&LyricResults>) -> (clamped_cursor: usize)
    ensures
        clamped_cursor == clamped(cursor as int, entry_view(cache_entry)),
{
    match cache_entry {
        Some(lyrics) => {
            let n: usize = lyrics.len();
            if n == 0 {
                0
            } else if cursor > n - 1 {
                n - 1
            } else {
                cursor
            }
        },
        None => 0,
    }
}

/// Moves `cursor` forward by `step` lines and brings it into range.
fn advance_cursor(cursor: usize, step: usize, cache_entry: Option<&LyricResults>) -> (advanced: usize)
    ensures
        advanced == clamped(cursor + step, entry_view(cache_entry)),
{
    match cache_entry {
        Some(lyrics) => {
            let n: usize = lyrics.len();
            if n == 0 {
                0
            } else if cursor >= n - 1 || step >= n - 1 - cursor {
                n - 1
            } else {
                cursor + step
            }
        },
        None => 0,
    }
}

/// Handles the command that a key sequence maps to on the lyric page.
///
/// `mode` is updated in place. `currently_singing_lineno` is the line that
/// playback has reached, as the caller computed it; `cache_entry` holds the
/// lyrics of the page's track where they are cached; `page_size_in_rows` is
/// how far the paging commands move. The outcome says whether the page took
/// the command and what the caller has to do: seek playback, or copy a line.
/// Confirming a line whose start `chrono` has no span for seeks nowhere.
pub fn handle_key_sequence_for_lyric_page(
    command: Option<Command>,
    mode: &mut LyricMode,
    currently_singing_lineno: Option<usize>,
    cache_entry: Option<&LyricResults>,
    page_size_in_rows: usize,
) -> (outcome: LyricPageOutcome)
    ensures
        outcome.handled == handles(command),
        *final(mode) == next_mode(
            command,
            *old(mode),
            currently_singing_lineno,
            entry_view(cache_entry),
            page_size_in_rows,
        ),
        outcome.effect@ == effect_of(
            command,
            *old(mode),
            currently_singing_lineno,
            entry_view(cache_entry),
        ),
{
    let command = match command {
        Some(command) => command,
        None => {
            return LyricPageOutcome { handled: false, effect: LyricPageEffect::Nothing };
        },
    };
    let mut effect = LyricPageEffect::Nothing;
    match command {
        Command::SelectNextOrScrollDown => match *mode {
            LyricMode::SyncedView => {
                *mode = LyricMode::Seek {
                    cursor: clamp_cursor(first_cursor(currently_singing_lineno), cache_entry),
                };
            },
            LyricMode::Seek { cursor } => {
                *mode = LyricMode::Seek { cursor: advance_cursor(cursor, 1, cache_entry) };
            },
        },
        Command::SelectPreviousOrScrollUp => match *mode {
            LyricMode::SyncedView => {
                *mode = LyricMode::Seek {
                    cursor: clamp_cursor(first_cursor(currently_singing_lineno), cache_entry),
                };
            },
            LyricMode::Seek { cursor } => {
                *mode = LyricMode::Seek {
                    cursor: clamp_cursor(cursor.saturating_sub(1), cache_entry),
                };
            },
        },
        Command::PageSelectNextOrScrollDown => match *mode {
            LyricMode::SyncedView => {
                *mode = LyricMode::Seek {
                    cursor: clamp_cursor(first_cursor(currently_singing_lineno), cache_entry),
                };
            },
            LyricMode::Seek { cursor } => {
                *mode = LyricMode::Seek {
                    cursor: advance_cursor(cursor, page_size_in_rows, cache_entry),
                };
            },
        },
        Command::PageSelectPreviousOrScrollUp => match *mode {
            LyricMode::SyncedView => {
                *mode = LyricMode::Seek {
                    cursor: clamp_cursor(first_cursor(currently_singing_lineno), cache_entry),
                };
            },
            LyricMode::Seek { cursor } => {
                *mode = LyricMode::Seek {
                    cursor: clamp_cursor(cursor.saturating_sub(page_size_in_rows), cache_entry),
                };
            },
        },
        Command::SelectFirstOrScrollToTop => match *mode {
            LyricMode::SyncedView => {
                *mode = LyricMode::Seek {
                    cursor: clamp_cursor(first_cursor(currently_singing_lineno), cache_entry),
                };
            },
            LyricMode::Seek { .. } => {
                *mode = LyricMode::Seek { cursor: clamp_cursor(0, cache_entry) };
            },
        },
        // The page does not know how many rows the lyrics take, so the
        // cursor goes far down and the clamp brings it back.
        Command::SelectLastOrScrollToBottom => match *mode {
            LyricMode::SyncedView => {
                *mode = LyricMode::Seek {
                    cursor: clamp_cursor(first_cursor(currently_singing_lineno), cache_entry),
                };
            },
            LyricMode::Seek { .. } => {
                *mode = LyricMode::Seek { cursor: clamp_cursor(LAST_LINE_SENTINEL, cache_entry) };
            },
        },
        Command::ClosePopup => {
            *mode = LyricMode::SyncedView;
        },
        Command::ChooseSelected => {
            if let LyricMode::Seek { cursor } = *mode {
                if let Some(LyricResults::Synced { lyrics }) = cache_entry {
                    if cursor < lyrics.len() {
                        if let Some(offset) = duration_from_millis(lyrics[cursor].start_time_ms) {
                            effect = LyricPageEffect::SeekTrack(offset);
                        }
                    }
                }
            }
            *mode = LyricMode::SyncedView;
        },
        Command::CopySelectedLine => {
            let line_to_copy = match *mode {
                LyricMode::SyncedView => currently_singing_lineno,
                LyricMode::Seek { cursor } => Some(cursor),
            };
            if let Some(line) = line_to_copy {
                if let Some(lyrics) = cache_entry {
                    if line < lyrics.len() {
                        effect = LyricPageEffect::CopyLine(lyrics.words(line).clone());
                    }
                }
            }
            *mode = LyricMode::SyncedView;
        },
        _ => {
            return LyricPageOutcome { handled: false, effect };
        },
    }
    LyricPageOutcome { handled: true, effect }
}

/// The cursor that seeking starts from: the line that is sung, or the first.
fn first_cursor(currently_singing_lineno: Option<usize>) -> (cursor: usize)
    ensures
        cursor == match currently_singing_lineno {
            Some(line) => line,
            None => 0,
        },
{
    match currently_singing_lineno {
        Some(line) => line,
        None => 0,
    }
}

} // verus!
