//! Decoding the answer of the lyrics endpoint.

use crate::decimal::{integer_of, parse_i64};
use crate::json::{parsed_document, Json, JsonValue};
use crate::lyrics::{LyricResults, Lyrics, SyncedLine, SyncedLyric};
use vstd::prelude::*;

verus! {

/// The line shown where a track has no lyrics.
pub const NO_LYRICS: &'static str = "no lyrics for this song";

/// The glyph that stands for a passage without words.
pub const NOTE: &'static str = "\u{266a}";

/// The sync type of lyrics whose lines carry start times.
pub const LINE_SYNCED: &'static str = "LINE_SYNCED";

/// A first line that starts later than this many milliseconds gets a note
/// put before it.
pub const LEADING_GAP_MS: i64 = 2000;

/// Why the answer of the lyrics endpoint cannot be used.
#[derive(Debug, Clone, Copy, PartialEq, Eq, Structural)]
pub enum FetchError {
    /// The body is no JSON document, or lacks what a lyrics payload holds.
    Malformed,
}

/// The text shown for a line: the note where the line has no words.
pub open spec fn shown(words: Seq<char>) -> Seq<char> {
    if words.len() == 0 {
        NOTE@
    } else {
        words
    }
}

/// The string member `key` of `entry`.
pub open spec fn text_member(entry: JsonValue, key: Seq<char>) -> Option<Seq<char>> {
    match entry.member(key) {
        Some(value) => value.text(),
        None => None,
    }
}

/// The synced line that a payload entry holds: its words as shown, and its
/// start time read as a decimal integer.
pub open spec fn synced_line(entry: JsonValue) -> Option<SyncedLine> {
    match (text_member(entry, "words"@), text_member(entry, "startTimeMs"@)) {
        (Some(words), Some(start)) => match integer_of(start) {
            Some(ms) => Some(SyncedLine { words: shown(words), start_time_ms: ms }),
            None => None,
        },
        _ => None,
    }
}

/// The plain line that a payload entry holds.
pub open spec fn unsynced_line(entry: JsonValue) -> Option<Seq<char>> {
    match text_member(entry, "words"@) {
        Some(words) => Some(shown(words)),
        None => None,
    }
}

/// The note line that fills a long silence before the first words.
pub open spec fn gap_line() -> SyncedLine {
    SyncedLine { words: NOTE@, start_time_ms: 0 }
}

/// `lines`, with a note line put first where the first line starts later
/// than [`LEADING_GAP_MS`]. Without lines there is nothing to put it before.
pub open spec fn with_leading_gap(lines: Seq<SyncedLine>) -> Seq<SyncedLine> {
    if lines.len() > 0 && lines[0].start_time_ms > LEADING_GAP_MS {
        seq![gap_line()] + lines
    } else {
        lines
    }
}

/// The sync type of a payload: the string at `lyrics.syncType`.
pub open spec fn sync_type_of(document: JsonValue) -> Option<Seq<char>> {
    match document.member("lyrics"@) {
        Some(lyrics) => text_member(lyrics, "syncType"@),
        None => None,
    }
}

/// The entries of a payload: the array at `lyrics.lines`.
pub open spec fn entries_of(document: JsonValue) -> Option<Seq<JsonValue>> {
    match document.member("lyrics"@) {
        Some(lyrics) => match lyrics.member("lines"@) {
            Some(lines) => lines.items(),
            None => None,
        },
        None => None,
    }
}

/// The lyrics that a payload holds.
pub open spec fn decoded(document: JsonValue) -> Result<Lyrics, FetchError> {
    match (sync_type_of(document), entries_of(document)) {
        (Some(kind), Some(entries)) => if kind == LINE_SYNCED@ {
            if forall|i: int| 0 <= i < entries.len() ==> synced_line(#[trigger] entries[i]) is Some {
                Ok(
                    Lyrics::Synced(
                        with_leading_gap(
                            Seq::new(entries.len(), |i: int| synced_line(entries[i]).unwrap()),
                        ),
                    ),
                )
            } else {
                Err(FetchError::Malformed)
            }
        } else {
            if forall|i: int|
                0 <= i < entries.len() ==> unsynced_line(#[trigger] entries[i]) is Some {
                Ok(
                    Lyrics::UnSynced(
                        Seq::new(entries.len(), |i: int| unsynced_line(entries[i]).unwrap()),
                    ),
                )
            } else {
                Err(FetchError::Malformed)
            }
        },
        _ => Err(FetchError::Malformed),
    }
}

/// What the endpoint's answer comes to: the one line [`NO_LYRICS`] for any
/// status but 200, else what the body holds.
pub open spec fn response_lyrics(status: u16, body: Seq<char>) -> Result<Lyrics, FetchError> {
    if status != 200 {
        Ok(Lyrics::UnSynced(seq![NO_LYRICS@]))
    } else {
        match parsed_document(body) {
            Some(document) => decoded(document),
            None => Err(FetchError::Malformed),
        }
    }
}

/// A decoding outcome with the lyrics taken by their view.
pub open spec fn outcome_view(outcome: Result<LyricResults, FetchError>) -> Result<
    Lyrics,
    FetchError,
> {
    match outcome {
        Ok(lyrics) => Ok(lyrics@),
        Err(e) => Err(e),
    }
}

/// The note is one character, so a line that is shown is never empty.
pub proof fn lemma_shown_is_not_empty(words: Seq<char>)
    ensures
        shown(words).len() > 0,
        words.len() == 0 ==> shown(words) == NOTE@,
        words.len() > 0 ==> shown(words) == words,
{
    reveal_strlit("\u{266a}");
}

/// A payload entry whose words are the empty string is decoded to a line
/// whose text is the note, in synced and in unsynced lyrics alike; entry `i`
/// is found after the leading note where there is one. No decoded line has
/// an empty text.
pub proof fn lemma_empty_words_become_note(document: JsonValue, i: int)
    requires
        decoded(document) is Ok,
        0 <= i < entries_of(document).unwrap().len(),
    ensures
        ({
            let entries = entries_of(document).unwrap();
            let lyrics = decoded(document).unwrap();
            let at = i + (lyrics.len() - entries.len());
            &&& entries.len() <= lyrics.len() <= entries.len() + 1
            &&& text_member(entries[i], "words"@) is Some
            &&& lyrics.words(at) == shown(text_member(entries[i], "words"@).unwrap())
            &&& text_member(entries[i], "words"@) == Some(Seq::<char>::empty()) ==> lyrics.words(at)
                == NOTE@
            &&& forall|k: int| 0 <= k < lyrics.len() ==> (#[trigger] lyrics.words(k)).len() > 0
        }),
{
    reveal_strlit("\u{266a}");
}

/// Where the first line starts later than [`LEADING_GAP_MS`], a note line
/// that starts at 0 is put before the lines; where it starts no later,
/// nothing is put; and without lines nothing is put either.
pub proof fn lemma_leading_gap(lines: Seq<SyncedLine>)
    ensures
        lines.len() > 0 && lines[0].start_time_ms > LEADING_GAP_MS ==> {
            &&& with_leading_gap(lines) == seq![gap_line()] + lines
            &&& with_leading_gap(lines).len() == lines.len() + 1
            &&& with_leading_gap(lines)[0].start_time_ms == 0
            &&& with_leading_gap(lines)[0].words == NOTE@
        },
        lines.len() > 0 && lines[0].start_time_ms <= LEADING_GAP_MS ==> with_leading_gap(lines)
            == lines,
        lines.len() == 0 ==> with_leading_gap(lines) == lines,
{
}

/// Whether two strings hold the same characters.
fn same_text(a: &str, b: &str) -> (same: bool)
    ensures
        same == (a@ == b@),
{
    String::from_str(a) == String::from_str(b)
}

/// The string member `key` of `entry`.
fn text_of<'a>(entry: &'a Json, key: &str) -> (text: Option<&'a str>)
    ensures
        match text {
            Some(s) => text_member(entry@, key@) == Some(s@),
            None => text_member(entry@, key@) is None,
        },
{
    match entry.get(key) {
        Some(value) => value.as_str(),
        None => None,
    }
}

/// The text shown for a line.
fn shown_words(words: &str) -> (text: String)
    ensures
        text@ == shown(words@),
{
    if words.is_empty() {
        String::from_str(NOTE)
    } else {
        String::from_str(words)
    }
}

/// Decodes the entries of a synced payload.
fn decode_synced(entries: &Vec<Json>) -> (outcome: Result<Vec<SyncedLyric>, FetchError>)
    ensures
        match outcome {
            Ok(lines) => {
                &&& lines.len() == entries.len()
                &&& forall|i: int|
                    0 <= i < entries.len() ==> synced_line(entries@[i]@) == Some(
                        #[trigger] lines@[i]@,
                    )
            },
            Err(e) => exists|i: int|
                0 <= i < entries.len() && synced_line(#[trigger] entries@[i]@) is None,
        },
{
    let mut lines: Vec<SyncedLyric> = Vec::new();
    let mut i: usize = 0;
    while i < entries.len()
        invariant
            i <= entries.len(),
            lines.len() == i,
            forall|k: int| 0 <= k < i ==> synced_line(entries@[k]@) == Some(#[trigger] lines@[k]@),
        decreases entries.len() - i,
    {
        let words = match text_of(&entries[i], "words") {
            Some(words) => words,
            None => {
                return Err(FetchError::Malformed);
            },
        };
        let start = match text_of(&entries[i], "startTimeMs") {
            Some(start) => start,
            None => {
                return Err(FetchError::Malformed);
            },
        };
        let start_time_ms = match parse_i64(start) {
            Some(ms) => ms,
            None => {
                return Err(FetchError::Malformed);
            },
        };
        lines.push(SyncedLyric { words: shown_words(words), start_time_ms });
        i += 1;
    }
    Ok(lines)
}

/// Decodes the entries of an unsynced payload.
fn decode_unsynced(entries: &Vec<Json>) -> (outcome: Result<Vec<String>, FetchError>)
    ensures
        match outcome {
            Ok(lines) => {
                &&& lines.len() == entries.len()
                &&& forall|i: int|
                    0 <= i < entries.len() ==> unsynced_line(entries@[i]@) == Some(
                        #[trigger] lines@[i]@,
                    )
            },
            Err(e) => exists|i: int|
                0 <= i < entries.len() && unsynced_line(#[trigger] entries@[i]@) is None,
        },
{
    let mut lines: Vec<String> = Vec::new();
    let mut i: usize = 0;
    while i < entries.len()
        invariant
            i <= entries.len(),
            lines.len() == i,
            forall|k: int|
                0 <= k < i ==> unsynced_line(entries@[k]@) == Some(#[trigger] lines@[k]@),
        decreases entries.len() - i,
    {
        match text_of(&entries[i], "words") {
            Some(words) => {
                lines.push(shown_words(words));
            },
            None => {
                return Err(FetchError::Malformed);
            },
        }
        i += 1;
    }
    Ok(lines)
}

/// Puts a note line first where the first line starts late.
pub fn insert_leading_gap(lines: &mut Vec<SyncedLyric>)
    ensures
        Seq::new(final(lines)@.len(), |i: int| final(lines)@[i]@) == with_leading_gap(
            Seq::new(old(lines)@.len(), |i: int| old(lines)@[i]@),
        ),
{
    if lines.len() > 0 && lines[0].start_time_ms > LEADING_GAP_MS {
        lines.insert(0, SyncedLyric { words: String::from_str(NOTE), start_time_ms: 0 });
    }
}

/// Decodes the lyrics that a payload holds.
pub fn decode_lyrics(document: &Json) -> (outcome: Result<LyricResults, FetchError>)
    ensures
        outcome_view(outcome) == decoded(document@),
{
    let lyrics = match document.get("lyrics") {
        Some(lyrics) => lyrics,
        None => {
            return Err(FetchError::Malformed);
        },
    };
    let kind = match text_of(lyrics, "syncType") {
        Some(kind) => kind,
        None => {
            return Err(FetchError::Malformed);
        },
    };
    let entries = match lyrics.get("lines") {
        Some(lines) => match lines.as_array() {
            Some(entries) => entries,
            None => {
                return Err(FetchError::Malformed);
            },
        },
        None => {
            return Err(FetchError::Malformed);
        },
    };
    let ghost values = Seq::new(entries@.len(), |i: int| entries@[i]@);
    if same_text(kind, LINE_SYNCED) {
        match decode_synced(entries) {
            Ok(mut lines) => {
                assert forall|i: int| 0 <= i < values.len() implies synced_line(
                    #[trigger] values[i],
                ) is Some by {
                    assert(synced_line(entries@[i]@) == Some(lines@[i]@));
                }
                assert(Seq::new(lines@.len(), |i: int| lines@[i]@) =~= Seq::new(
                    values.len(),
                    |i: int| synced_line(values[i]).unwrap(),
                ));
                insert_leading_gap(&mut lines);
                Ok(LyricResults::Synced { lyrics: lines })
            },
            Err(e) => {
                let ghost bad = choose|i: int|
                    0 <= i < entries.len() && synced_line(#[trigger] entries@[i]@) is None;
                assert(synced_line(values[bad]) is None);
                Err(e)
            },
        }
    } else {
        match decode_unsynced(entries) {
            Ok(lines) => {
                assert forall|i: int| 0 <= i < values.len() implies unsynced_line(
                    #[trigger] values[i],
                ) is Some by {
                    assert(unsynced_line(entries@[i]@) == Some(lines@[i]@));
                }
                assert(Seq::new(lines@.len(), |i: int| lines@[i]@) =~= Seq::new(
                    values.len(),
                    |i: int| unsynced_line(values[i]).unwrap(),
                ));
                Ok(LyricResults::UnSynced { lyrics: lines })
            },
            Err(e) => {
                let ghost bad = choose|i: int|
                    0 <= i < entries.len() && unsynced_line(#[trigger] entries@[i]@) is None;
                assert(unsynced_line(values[bad]) is None);
                Err(e)
            },
        }
    }
}

/// Turns the answer of the lyrics endpoint into lyrics.
pub fn lyrics_from_response(status: u16, body: &str) -> (outcome: Result<LyricResults, FetchError>)
    ensures
        outcome_view(outcome) == response_lyrics(status, body@),
{
    if status != 200 {
        return Ok(LyricResults::notice(NO_LYRICS));
    }
    match Json::parse(body) {
        Ok(document) => decode_lyrics(&document),
        Err(_) => Err(FetchError::Malformed),
    }
}

} // verus!
