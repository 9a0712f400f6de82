//! The lyrics that were fetched, by track.

use crate::lyrics::{LyricResults, Lyrics};
use vstd::prelude::*;

verus! {

/// The lyrics of the tracks that were asked for in this session. An entry
/// is made when a track's lyrics are first had, stays for good, and changes
/// only where lyrics are put for the same track again.
#[derive(Debug)]
pub struct LyricCache {
    entries: Vec<(String, LyricResults)>,
}

/// The position of the first entry for `track_id` at or after `start`.
pub open spec fn position_from(
    entries: Seq<(String, LyricResults)>,
    track_id: Seq<char>,
    start: int,
) -> Option<int>
    decreases entries.len() - start,
{
    if 0 <= start < entries.len() {
        if entries[start].0@ == track_id {
            Some(start)
        } else {
            position_from(entries, track_id, start + 1)
        }
    } else {
        None
    }
}

/// The lyrics by track that a list of entries stands for: for each track
/// the first entry counts.
pub open spec fn lyrics_by_track(entries: Seq<(String, LyricResults)>) -> Map<Seq<char>, Lyrics> {
    Map::new(
        |track_id: Seq<char>| position_from(entries, track_id, 0) is Some,
        |track_id: Seq<char>| entries[position_from(entries, track_id, 0).unwrap()].1@,
    )
}

/// A position found lies at or after the start, within the entries, and
/// holds the track looked for; no entry between the start and it does.
proof fn lemma_position(entries: Seq<(String, LyricResults)>, track_id: Seq<char>, start: int)
    requires
        0 <= start,
    ensures
        match position_from(entries, track_id, start) {
            Some(p) => {
                &&& start <= p < entries.len()
                &&& entries[p].0@ == track_id
                &&& forall|i: int| start <= i < p ==> (#[trigger] entries[i]).0@ != track_id
            },
            None => forall|i: int|
                start <= i < entries.len() ==> (#[trigger] entries[i]).0@ != track_id,
        },
    decreases entries.len() - start,
{
    if start < entries.len() && entries[start].0@ != track_id {
        lemma_position(entries, track_id, start + 1);
    }
}

/// The first position that holds a track is the one found.
proof fn lemma_first_position(
    entries: Seq<(String, LyricResults)>,
    track_id: Seq<char>,
    start: int,
    p: int,
)
    requires
        0 <= start <= p < entries.len(),
        entries[p].0@ == track_id,
        forall|i: int| start <= i < p ==> (#[trigger] entries[i]).0@ != track_id,
    ensures
        position_from(entries, track_id, start) == Some(p),
    decreases p - start,
{
    if start < p {
        lemma_first_position(entries, track_id, start + 1, p);
    }
}

/// No position is found where no entry holds the track.
proof fn lemma_no_position(entries: Seq<(String, LyricResults)>, track_id: Seq<char>, start: int)
    requires
        0 <= start,
        forall|i: int| start <= i < entries.len() ==> (#[trigger] entries[i]).0@ != track_id,
    ensures
        position_from(entries, track_id, start) is None,
    decreases entries.len() - start,
{
    if start < entries.len() {
        lemma_no_position(entries, track_id, start + 1);
    }
}

/// Giving the first entry of a track new lyrics changes the lyrics of that
/// track and of no other.
proof fn lemma_entry_replaced(
    before: Seq<(String, LyricResults)>,
    after: Seq<(String, LyricResults)>,
    p: int,
)
    requires
        0 <= p < before.len(),
        position_from(before, before[p].0@, 0) == Some(p),
        after.len() == before.len(),
        after[p].0@ == before[p].0@,
        forall|i: int| 0 <= i < before.len() && i != p ==> after[i] == before[i],
    ensures
        lyrics_by_track(after) == lyrics_by_track(before).insert(after[p].0@, after[p].1@),
{
    let key = after[p].0@;
    let old_map = lyrics_by_track(before);
    let new_map = lyrics_by_track(after);
    assert forall|k: Seq<char>|
        (#[trigger] new_map.dom().contains(k)) == old_map.insert(key, after[p].1@).dom().contains(k)
            && (new_map.dom().contains(k) ==> new_map[k] == old_map.insert(key, after[p].1@)[k]) by {
        lemma_same_tracks(before, after, k);
        lemma_position(before, k, 0);
    }
}

/// Two lists that hold the same tracks at the same places find each track
/// at the same place.
proof fn lemma_same_tracks(
    before: Seq<(String, LyricResults)>,
    after: Seq<(String, LyricResults)>,
    track_id: Seq<char>,
)
    requires
        after.len() == before.len(),
        forall|i: int| 0 <= i < before.len() ==> (#[trigger] after[i]).0@ == before[i].0@,
    ensures
        position_from(after, track_id, 0) == position_from(before, track_id, 0),
{
    lemma_position(before, track_id, 0);
    match position_from(before, track_id, 0) {
        Some(q) => {
            lemma_first_position(after, track_id, 0, q);
        },
        None => {
            lemma_no_position(after, track_id, 0);
        },
    }
}

/// An entry added at the end for a track that had none adds the lyrics of
/// that track and changes no other.
proof fn lemma_entry_added(before: Seq<(String, LyricResults)>, after: Seq<(String, LyricResults)>)
    requires
        after.len() == before.len() + 1,
        forall|i: int| 0 <= i < before.len() ==> after[i] == before[i],
        position_from(before, after.last().0@, 0) is None,
    ensures
        lyrics_by_track(after) == lyrics_by_track(before).insert(after.last().0@, after.last().1@),
{
    let key = after.last().0@;
    lemma_position(before, key, 0);
    lemma_first_position(after, key, 0, before.len() as int);
    let old_map = lyrics_by_track(before);
    let new_map = lyrics_by_track(after);
    assert forall|k: Seq<char>|
        (#[trigger] new_map.dom().contains(k)) == old_map.insert(
            key,
            after.last().1@,
        ).dom().contains(k) && (new_map.dom().contains(k) ==> new_map[k] == old_map.insert(
            key,
            after.last().1@,
        )[k]) by {
        if k != key {
            lemma_position(before, k, 0);
            match position_from(before, k, 0) {
                Some(q) => {
                    lemma_first_position(after, k, 0, q);
                },
                None => {
                    lemma_no_position(after, k, 0);
                },
            }
        }
    }
}

/// The cache once the lyrics of `track_id` were asked for and, where they
/// were not cached, `fetched` came back.
pub open spec fn cached_after(
    cache: Map<Seq<char>, Lyrics>,
    track_id: Seq<char>,
    fetched: Lyrics,
) -> Map<Seq<char>, Lyrics> {
    if cache.contains_key(track_id) {
        cache
    } else {
        cache.insert(track_id, fetched)
    }
}

/// The lyrics handed out for `track_id`: those cached, else `fetched`.
pub open spec fn served(cache: Map<Seq<char>, Lyrics>, track_id: Seq<char>, fetched: Lyrics) -> Lyrics {
    if cache.contains_key(track_id) {
        cache[track_id]
    } else {
        fetched
    }
}

/// How many fetches asking for the lyrics of `track_id` takes.
pub open spec fn fetches(cache: Map<Seq<char>, Lyrics>, track_id: Seq<char>) -> nat {
    if cache.contains_key(track_id) {
        0
    } else {
        1
    }
}

/// Asking for the lyrics of one track twice in a row takes one fetch at
/// most, and both times the same lyrics are handed out.
pub proof fn lemma_fetched_once(
    cache: Map<Seq<char>, Lyrics>,
    track_id: Seq<char>,
    first: Lyrics,
    second: Lyrics,
)
    ensures
        ({
            let filled = cached_after(cache, track_id, first);
            &&& fetches(cache, track_id) + fetches(filled, track_id) <= 1
            &&& fetches(filled, track_id) == 0
            &&& served(filled, track_id, second) == served(cache, track_id, first)
            &&& cached_after(filled, track_id, second) == filled
        }),
{
}

impl View for LyricCache {
    type V = Map<Seq<char>, Lyrics>;

    closed spec fn view(&self) -> Map<Seq<char>, Lyrics> {
        lyrics_by_track(self.entries@)
    }
}

impl LyricCache {
    /// A cache without entries.
    pub fn new() -> (cache: Self)
        ensures
            cache@ == Map::<Seq<char>, Lyrics>::empty(),
    {
        let cache = LyricCache { entries: Vec::new() };
        cache
    }

    /// The position of the entry for `track_id`.
    fn position(&self, track_id: &str) -> (found: Option<usize>)
        ensures
            match found {
                Some(p) => p < self.entries.len() && position_from(self.entries@, track_id@, 0)
                    == Some(p as int),
                None => position_from(self.entries@, track_id@, 0) is None,
            },
    {
        let wanted = String::from_str(track_id);
        let mut i: usize = 0;
        while i < self.entries.len()
            invariant
                i <= self.entries.len(),
                wanted@ == track_id@,
                position_from(self.entries@, track_id@, 0) == position_from(
                    self.entries@,
                    track_id@,
                    i as int,
                ),
            decreases self.entries.len() - i,
        {
            if self.entries[i].0 == wanted {
                return Some(i);
            }
            i += 1;
        }
        None
    }

    /// The lyrics cached for `track_id`.
    pub fn get(&self, track_id: &str) -> (found: Option<&LyricResults>)
        ensures
            match found {
                Some(lyrics) => self@.contains_key(track_id@) && self@[track_id@] == lyrics@,
                None => !self@.contains_key(track_id@),
            },
    {
        match self.position(track_id) {
            Some(p) => Some(&self.entries[p].1),
            None => None,
        }
    }

    /// Caches `result` as the lyrics of `track_id`, in place of any that
    /// were cached for it.
    pub fn put(&mut self, track_id: String, result: LyricResults)
        ensures
            final(self)@ == old(self)@.insert(track_id@, result@),
    {
        let ghost before = self.entries@;
        let ghost key = track_id@;
        let ghost value = result@;
        match self.position(track_id.as_str()) {
            Some(p) => {
                self.entries.set(p, (track_id, result));
                proof {
                    lemma_position(before, key, 0);
                    lemma_entry_replaced(before, self.entries@, p as int);
                }
            },
            None => {
                self.entries.push((track_id, result));
                proof {
                    lemma_entry_added(before, self.entries@);
                }
            },
        }
    }

    /// The lyrics of `track_id`: those cached, else those that `fetch_fn`
    /// brings, which are then cached. `fetch_fn` is called only where the
    /// track has no entry, and once; where it fails, its error is handed on
    /// and the cache stays as it was.
    pub fn get_or_fetch<E, F: FnOnce(&str) -> Result<LyricResults, E>>(
        &mut self,
        track_id: &str,
        fetch_fn: F,
    ) -> (outcome: Result<LyricResults, E>)
        requires
            fetch_fn.requires((track_id,)),
        ensures
            match outcome {
                Ok(lyrics) => {
                    &&& lyrics@ == served(old(self)@, track_id@, lyrics@)
                    &&& final(self)@ == cached_after(old(self)@, track_id@, lyrics@)
                    &&& fetches(old(self)@, track_id@) == 1 ==> fetch_fn.ensures(
                        (track_id,),
                        Ok(lyrics),
                    )
                },
                Err(e) => {
                    &&& fetches(old(self)@, track_id@) == 1
                    &&& fetch_fn.ensures((track_id,), Err(e))
                    &&& final(self)@ == old(self)@
                },
            },
    {
        match self.get(track_id) {
            Some(lyrics) => Ok(lyrics.clone()),
            None => match fetch_fn(track_id) {
                Ok(lyrics) => {
                    self.put(String::from_str(track_id), lyrics.clone());
                    Ok(lyrics)
                },
                Err(e) => Err(e),
            },
        }
    }
}

} // verus!
