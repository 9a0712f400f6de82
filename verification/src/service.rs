//! The lyrics service: the client and the cache behind one operation, with a
//! mark on each track whose lyrics are being fetched, so that no track is
//! fetched twice.

use crate::cache::LyricCache;
use crate::http::{HttpRequest, Request};
use crate::lyrics::{LyricResults, Lyrics};
use crate::realtime_lyrics::{
    state_after, step_after, ClientState, Event, LyricsError, LyricsEvent, LyricsStep,
    RealtimeLyricsClient, Step,
};
use vstd::prelude::*;

verus! {

/// The tracks whose lyrics are being fetched.
#[derive(Debug)]
pub struct TrackSet {
    ids: Vec<String>,
}

/// Whether one of `ids` is `track_id`.
pub open spec fn holds(ids: Seq<String>, track_id: Seq<char>) -> bool {
    exists|i: int| 0 <= i < ids.len() && (#[trigger] ids[i])@ == track_id
}

impl View for TrackSet {
    type V = Set<Seq<char>>;

    closed spec fn view(&self) -> Set<Seq<char>> {
        Set::new(|track_id: Seq<char>| holds(self.ids@, track_id))
    }
}

impl TrackSet {
    /// No tracks.
    pub fn new() -> (tracks: Self)
        ensures
            tracks@ == Set::<Seq<char>>::empty(),
    {
        let tracks = TrackSet { ids: Vec::new() };
        tracks
    }

    /// Whether `track_id` is among the tracks.
    pub fn contains(&self, track_id: &str) -> (found: bool)
        ensures
            found == self@.contains(track_id@),
    {
        let wanted = String::from_str(track_id);
        let mut i: usize = 0;
        while i < self.ids.len()
            invariant
                i <= self.ids.len(),
                wanted@ == track_id@,
                forall|k: int| 0 <= k < i ==> (#[trigger] self.ids@[k])@ != track_id@,
            decreases self.ids.len() - i,
        {
            if self.ids[i] == wanted {
                return true;
            }
            i += 1;
        }
        false
    }

    /// Puts `track_id` among the tracks.
    pub fn insert(&mut self, track_id: &str)
        ensures
            final(self)@ == old(self)@.insert(track_id@),
    {
        let ghost before = self.ids@;
        self.ids.push(String::from_str(track_id));
        proof {
            let after = self.ids@;
            assert forall|id: Seq<char>| holds(after, id) == (holds(before, id) || id
                == track_id@) by {
                if holds(before, id) {
                    let i = choose|i: int| 0 <= i < before.len() && (#[trigger] before[i])@ == id;
                    assert(after[i]@ == id);
                }
                if id == track_id@ {
                    assert(after[before.len() as int]@ == id);
                }
            }
        }
    }

    /// Takes `track_id` from among the tracks.
    pub fn remove(&mut self, track_id: &str)
        ensures
            final(self)@ == old(self)@.remove(track_id@),
    {
        let ghost before = self.ids@;
        let unwanted = String::from_str(track_id);
        let mut kept: Vec<String> = Vec::new();
        let mut i: usize = 0;
        while i < self.ids.len()
            invariant
                i <= self.ids.len(),
                self.ids@ == before,
                unwanted@ == track_id@,
                forall|k: int| 0 <= k < kept.len() ==> (#[trigger] kept@[k])@ != track_id@,
                forall|k: int| 0 <= k < kept.len() ==> holds(before, (#[trigger] kept@[k])@),
                forall|k: int|
                    0 <= k < i && (#[trigger] before[k])@ != track_id@ ==> holds(kept@, before[k]@),
            decreases self.ids.len() - i,
        {
            if self.ids[i] != unwanted {
                let ghost earlier = kept@;
                kept.push(self.ids[i].clone());
                proof {
                    assert(kept@[earlier.len() as int]@ == before[i as int]@);
                    assert forall|k: int|
                        0 <= k < i + 1 && (#[trigger] before[k])@ != track_id@ implies holds(
                        kept@,
                        before[k]@,
                    ) by {
                        if k < i {
                            let j = choose|j: int|
                                0 <= j < earlier.len() && (#[trigger] earlier[j])@ == before[k]@;
                            assert(kept@[j]@ == before[k]@);
                        }
                    }
                }
            }
            i += 1;
        }
        self.ids = kept;
        proof {
            let after = self.ids@;
            assert forall|id: Seq<char>| holds(after, id) == (holds(before, id) && id
                != track_id@) by {}
        }
    }
}

/// The lyrics service.
#[derive(Debug)]
pub struct RealtimeLyricsService {
    client: RealtimeLyricsClient,
    cache: LyricCache,
    in_flight: TrackSet,
}

/// The mathematical value of a [`RealtimeLyricsService`].
pub struct ServiceState {
    pub client: ClientState,
    /// The lyrics cached, by track.
    pub cache: Map<Seq<char>, Lyrics>,
    /// The tracks whose lyrics are being fetched.
    pub in_flight: Set<Seq<char>>,
}

impl View for RealtimeLyricsService {
    type V = ServiceState;

    closed spec fn view(&self) -> ServiceState {
        ServiceState { client: self.client@, cache: self.cache@, in_flight: self.in_flight@ }
    }
}

/// What the service asks of the application.
#[derive(Debug, PartialEq, Eq)]
pub enum ServiceStep {
    /// The lyrics, or the reason why there are none: nothing more to do.
    Finish(Result<LyricResults, LyricsError>),
    /// The lyrics of the track are being fetched for another caller: ask for
    /// them again once that has come to an end.
    Wait,
    /// Send this request to the token endpoint and report the answer.
    RequestToken(HttpRequest),
    /// Send this request to the lyrics endpoint and report the answer.
    RequestLyrics(HttpRequest),
}

/// The mathematical value of a [`ServiceStep`].
pub enum NextStep {
    Finish(Result<Lyrics, LyricsError>),
    Wait,
    RequestToken(Request),
    RequestLyrics(Request),
}

impl View for ServiceStep {
    type V = NextStep;

    open spec fn view(&self) -> NextStep {
        match self {
            ServiceStep::Finish(Ok(lyrics)) => NextStep::Finish(Ok(lyrics@)),
            ServiceStep::Finish(Err(e)) => NextStep::Finish(Err(*e)),
            ServiceStep::Wait => NextStep::Wait,
            ServiceStep::RequestToken(request) => NextStep::RequestToken(request@),
            ServiceStep::RequestLyrics(request) => NextStep::RequestLyrics(request@),
        }
    }
}

/// A step of the client as a step of the service.
pub open spec fn lifted(step: Step) -> NextStep {
    match step {
        Step::Finish(outcome) => NextStep::Finish(outcome),
        Step::RequestToken(request) => NextStep::RequestToken(request),
        Step::RequestLyrics(request) => NextStep::RequestLyrics(request),
    }
}

/// Whether the service answers `event` for `track_id` by itself, without the
/// client: the lyrics are cached, or they are being fetched.
pub open spec fn settled(state: ServiceState, track_id: Seq<char>, event: Event) -> bool {
    event is Start && (state.cache.contains_key(track_id) || state.in_flight.contains(track_id))
}

/// What the service asks next after `event`, for the lyrics of `track_id`
/// at the time `now_ms`.
pub open spec fn service_step(
    state: ServiceState,
    track_id: Seq<char>,
    now_ms: u128,
    event: Event,
) -> NextStep {
    if event is Start && state.cache.contains_key(track_id) {
        NextStep::Finish(Ok(state.cache[track_id]))
    } else if event is Start && state.in_flight.contains(track_id) {
        NextStep::Wait
    } else {
        lifted(step_after(state.client, track_id, now_ms, event))
    }
}

/// The service after `event` for the lyrics of `track_id` at `now_ms`:
/// lyrics that were had are cached, and the track is marked as being fetched
/// from the first request to the end.
pub open spec fn service_after(
    state: ServiceState,
    track_id: Seq<char>,
    now_ms: u128,
    event: Event,
) -> ServiceState {
    if settled(state, track_id, event) {
        state
    } else {
        match step_after(state.client, track_id, now_ms, event) {
            Step::Finish(Ok(lyrics)) => ServiceState {
                client: state_after(state.client, event),
                cache: state.cache.insert(track_id, lyrics),
                in_flight: state.in_flight.remove(track_id),
            },
            Step::Finish(Err(_)) => ServiceState {
                client: state_after(state.client, event),
                cache: state.cache,
                in_flight: state.in_flight.remove(track_id),
            },
            _ => ServiceState {
                client: state_after(state.client, event),
                cache: state.cache,
                in_flight: state.in_flight.insert(track_id),
            },
        }
    }
}

/// Whether a step asks for a request to be sent.
pub open spec fn is_request(step: NextStep) -> bool {
    step is RequestToken || step is RequestLyrics
}

/// While the lyrics of a track are being fetched, asking for them again
/// sends nothing and changes nothing: the caller waits.
pub proof fn lemma_in_flight_is_not_fetched_again(
    state: ServiceState,
    track_id: Seq<char>,
    now_ms: u128,
    first: Event,
    later_ms: u128,
)
    requires
        is_request(service_step(state, track_id, now_ms, first)),
    ensures
        ({
            let under_way = service_after(state, track_id, now_ms, first);
            &&& under_way.in_flight.contains(track_id) || under_way.cache.contains_key(track_id)
            &&& !is_request(service_step(under_way, track_id, later_ms, Event::Start))
            &&& service_after(under_way, track_id, later_ms, Event::Start) == under_way
        }),
{
}

/// Once the lyrics of a track were had, every caller that asks for them gets
/// those very lyrics at once, and nothing is sent.
pub proof fn lemma_finished_lyrics_are_shared(
    state: ServiceState,
    track_id: Seq<char>,
    now_ms: u128,
    event: Event,
    later_ms: u128,
)
    requires
        service_step(state, track_id, now_ms, event) is Finish,
        service_step(state, track_id, now_ms, event)->Finish_0 is Ok,
    ensures
        ({
            let done = service_after(state, track_id, now_ms, event);
            let lyrics = service_step(state, track_id, now_ms, event)->Finish_0->Ok_0;
            &&& done.cache.contains_key(track_id)
            &&& done.cache[track_id] == lyrics
            &&& service_step(done, track_id, later_ms, Event::Start) == NextStep::Finish(Ok(lyrics))
            &&& service_after(done, track_id, later_ms, Event::Start) == done
        }),
{
}

impl RealtimeLyricsService {
    /// A service for the session cookie `sp_dc_cookie`, with nothing cached
    /// and nothing being fetched.
    pub fn new(sp_dc_cookie: String) -> (service: Self)
        ensures
            service@ == (ServiceState {
                client: ClientState { cookie: sp_dc_cookie@, token: None },
                cache: Map::empty(),
                in_flight: Set::empty(),
            }),
    {
        RealtimeLyricsService {
            client: RealtimeLyricsClient::new(sp_dc_cookie),
            cache: LyricCache::new(),
            in_flight: TrackSet::new(),
        }
    }

    /// The lyrics cached for `track_id`.
    pub fn cached(&self, track_id: &str) -> (found: Option<&LyricResults>)
        ensures
            match found {
                Some(lyrics) => self@.cache.contains_key(track_id@) && self@.cache[track_id@]
                    == lyrics@,
                None => !self@.cache.contains_key(track_id@),
            },
    {
        self.cache.get(track_id)
    }

    /// Whether the lyrics of `track_id` are being fetched.
    pub fn is_in_flight(&self, track_id: &str) -> (under_way: bool)
        ensures
            under_way == self@.in_flight.contains(track_id@),
    {
        self.in_flight.contains(track_id)
    }

    /// One step towards the lyrics of `track_id`.
    ///
    /// The application starts with [`LyricsEvent::Start`], does what the
    /// step asks, and reports what came of it, until the step is
    /// [`ServiceStep::Finish`] or [`ServiceStep::Wait`]. Lyrics that are
    /// cached are handed out at once. Lyrics that are being fetched are not
    /// fetched again. Lyrics that come in, a notice in place of lyrics too,
    /// are cached; an error is handed on and nothing is cached.
    pub fn get_lyrics(&mut self, track_id: &str, now_ms: u128, event: LyricsEvent) -> (step:
        ServiceStep)
        ensures
            step@ == service_step(old(self)@, track_id@, now_ms, event@),
            final(self)@ == service_after(old(self)@, track_id@, now_ms, event@),
    {
        if let LyricsEvent::Start = event {
            if let Some(lyrics) = self.cache.get(track_id) {
                return ServiceStep::Finish(Ok(lyrics.clone()));
            }
            if self.in_flight.contains(track_id) {
                return ServiceStep::Wait;
            }
        }
        match self.client.get_lyrics(track_id, now_ms, event) {
            LyricsStep::Finish(Ok(lyrics)) => {
                self.cache.put(String::from_str(track_id), lyrics.clone());
                self.in_flight.remove(track_id);
                ServiceStep::Finish(Ok(lyrics))
            },
            LyricsStep::Finish(Err(e)) => {
                self.in_flight.remove(track_id);
                ServiceStep::Finish(Err(e))
            },
            LyricsStep::RequestToken(request) => {
                self.in_flight.insert(track_id);
                ServiceStep::RequestToken(request)
            },
            LyricsStep::RequestLyrics(request) => {
                self.in_flight.insert(track_id);
                ServiceStep::RequestLyrics(request)
            },
        }
    }
}

} // verus!
