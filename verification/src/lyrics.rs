//! Lyric lines and the two shapes in which a track's lyrics come.

use vstd::prelude::*;

verus! {

/// One line of time-aligned lyrics.
#[derive(Debug, PartialEq, Eq)]
pub struct SyncedLyric {
    pub words: String,
    /// Where in the track the line starts, in milliseconds.
    pub start_time_ms: i64,
}

/// The mathematical value of a [`SyncedLyric`].
pub struct SyncedLine {
    pub words: Seq<char>,
    pub start_time_ms: i64,
}

impl View for SyncedLyric {
    type V = SyncedLine;

    open spec fn view(&self) -> SyncedLine {
        SyncedLine { words: self.words@, start_time_ms: self.start_time_ms }
    }
}

impl Clone for SyncedLyric {
    fn clone(&self) -> (copy: Self)
        ensures
            copy == *self,
    {
        SyncedLyric { words: self.words.clone(), start_time_ms: self.start_time_ms }
    }
}

/// The lyrics of one track: lines with their start times, or plain lines.
/// Where no lyrics can be had the result is `UnSynced` with one line that
/// says so, so that a caller always has lines to show.
#[derive(Debug, PartialEq, Eq)]
#[allow(inconsistent_fields)]
pub enum LyricResults {
    Synced { lyrics: Vec<SyncedLyric> },
    UnSynced { lyrics: Vec<String> },
}

/// The mathematical value of a [`LyricResults`].
pub enum Lyrics {
    Synced(Seq<SyncedLine>),
    UnSynced(Seq<Seq<char>>),
}

impl Lyrics {
    /// The number of lines.
    pub open spec fn len(self) -> nat {
        match self {
            Lyrics::Synced(lines) => lines.len(),
            Lyrics::UnSynced(lines) => lines.len(),
        }
    }

    /// The text of line `i`.
    pub open spec fn words(self, i: int) -> Seq<char>
        recommends
            0 <= i < self.len(),
    {
        match self {
            Lyrics::Synced(lines) => lines[i].words,
            Lyrics::UnSynced(lines) => lines[i],
        }
    }
}

impl View for LyricResults {
    type V = Lyrics;

    open spec fn view(&self) -> Lyrics {
        match self {
            LyricResults::Synced { lyrics } => Lyrics::Synced(
                Seq::new(lyrics@.len(), |i: int| lyrics@[i]@),
            ),
            LyricResults::UnSynced { lyrics } => Lyrics::UnSynced(
                Seq::new(lyrics@.len(), |i: int| lyrics@[i]@),
            ),
        }
    }
}

impl LyricResults {
    /// The number of lines.
    pub fn len(&self) -> (n: usize)
        ensures
            n == self@.len(),
    {
        match self {
            LyricResults::Synced { lyrics } => lyrics.len(),
            LyricResults::UnSynced { lyrics } => lyrics.len(),
        }
    }

    /// The text of line `i`.
    pub fn words(&self, i: usize) -> (text: &String)
        requires
            i < self@.len(),
        ensures
            text@ == self@.words(i as int),
    {
        match self {
            LyricResults::Synced { lyrics } => &lyrics[i].words,
            LyricResults::UnSynced { lyrics } => &lyrics[i],
        }
    }

    /// An unsynced result of the single line `line`.
    pub fn notice(line: &str) -> (result: LyricResults)
        ensures
            result@ == Lyrics::UnSynced(seq![line@]),
    {
        let mut lyrics: Vec<String> = Vec::new();
        lyrics.push(String::from_str(line));
        let result = LyricResults::UnSynced { lyrics };
        assert(result@->UnSynced_0 =~= seq![line@]);
        result
    }
}

impl Clone for LyricResults {
    fn clone(&self) -> (copy: Self)
        ensures
            copy@ == self@,
    {
        match self {
            LyricResults::Synced { lyrics } => {
                let mut lines: Vec<SyncedLyric> = Vec::new();
                let mut i: usize = 0;
                while i < lyrics.len()
                    invariant
                        i <= lyrics.len(),
                        lines.len() == i,
                        forall|k: int| 0 <= k < i ==> lines@[k] == lyrics@[k],
                    decreases lyrics.len() - i,
                {
                    lines.push(lyrics[i].clone());
                    i += 1;
                }
                let copy = LyricResults::Synced { lyrics: lines };
                assert(copy@->Synced_0 =~= self@->Synced_0);
                copy
            },
            LyricResults::UnSynced { lyrics } => {
                let mut lines: Vec<String> = Vec::new();
                let mut i: usize = 0;
                while i < lyrics.len()
                    invariant
                        i <= lyrics.len(),
                        lines.len() == i,
                        forall|k: int| 0 <= k < i ==> lines@[k] == lyrics@[k],
                    decreases lyrics.len() - i,
                {
                    lines.push(lyrics[i].clone());
                    i += 1;
                }
                let copy = LyricResults::UnSynced { lyrics: lines };
                assert(copy@->UnSynced_0 =~= self@->UnSynced_0);
                copy
            },
        }
    }
}

} // verus!
