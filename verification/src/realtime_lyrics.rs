//! The client of the real-time lyrics service: it keeps the session cookie
//! and the access token, says which request comes next, and turns the
//! answers into lyrics. It sends nothing itself.

use crate::http::{pairs_view, push_pair, HttpRequest, Request};
use crate::json::{parsed_document, Json, JsonValue};
use crate::lyrics::{LyricResults, Lyrics};
use crate::payload::{lyrics_from_response, response_lyrics, text_member, FetchError};
use vstd::prelude::*;

verus! {

/// Where an access token is had.
pub const GET_TOKEN_URL: &'static str = "https://open.spotify.com/get_access_token";

/// The address of a track's lyrics, up to the track's id.
pub const LYRICS_URL: &'static str = "https://spclient.wg.spotify.com/color-lyrics/v2/track/";

/// The line shown where no session cookie is configured.
pub const MISSING_COOKIE: &'static str = "Missing sp_dc_cookie";

/// Why no access token could be had.
#[derive(Debug, Clone, Copy, PartialEq, Eq, Structural)]
pub enum AuthError {
    /// The request did not go through.
    Transport,
    /// The answer is no JSON document.
    Malformed,
    /// The answer lacks the token or its expiry.
    MissingField,
}

/// Why no lyrics could be had.
#[derive(Debug, Clone, Copy, PartialEq, Eq, Structural)]
pub enum LyricsError {
    /// No access token could be had.
    Auth(AuthError),
    /// The request for the lyrics did not go through.
    Transport,
    /// The answer of the lyrics endpoint cannot be used.
    Fetch(FetchError),
}

/// An access token and the time at which it expires.
#[derive(Debug, PartialEq, Eq)]
pub struct LyricToken {
    value: String,
    expiration_time_ms: u128,
}

/// The mathematical value of a [`LyricToken`].
pub struct Token {
    pub value: Seq<char>,
    /// Milliseconds since the epoch.
    pub expiration_time_ms: u128,
}

impl View for LyricToken {
    type V = Token;

    closed spec fn view(&self) -> Token {
        Token { value: self.value@, expiration_time_ms: self.expiration_time_ms }
    }
}

impl Clone for LyricToken {
    fn clone(&self) -> (copy: Self)
        ensures
            copy@ == self@,
    {
        LyricToken { value: self.value.clone(), expiration_time_ms: self.expiration_time_ms }
    }
}

/// An expiry as the endpoint sends it, taken as unsigned: a negative number
/// counts from 2^128 down.
pub open spec fn expiry_of(timestamp_ms: i64) -> u128 {
    if timestamp_ms >= 0 {
        timestamp_ms as u128
    } else {
        (0x1_0000_0000_0000_0000_0000_0000_0000_0000 + timestamp_ms) as u128
    }
}

/// The token that the answer of the token endpoint holds: the string
/// `accessToken` and the integer `accessTokenExpirationTimestampMs`.
pub open spec fn token_of(document: JsonValue) -> Result<Token, AuthError> {
    match (
        text_member(document, "accessToken"@),
        document.member("accessTokenExpirationTimestampMs"@),
    ) {
        (Some(value), Some(expiry)) => match expiry.integer() {
            Some(ms) => Ok(Token { value, expiration_time_ms: expiry_of(ms) }),
            None => Err(AuthError::MissingField),
        },
        _ => Err(AuthError::MissingField),
    }
}

/// What the body of the token endpoint's answer comes to.
pub open spec fn response_token(body: Seq<char>) -> Result<Token, AuthError> {
    match parsed_document(body) {
        Some(document) => token_of(document),
        None => Err(AuthError::Malformed),
    }
}

/// A token outcome with the token taken by its view.
pub open spec fn token_view(outcome: Result<LyricToken, AuthError>) -> Result<Token, AuthError> {
    match outcome {
        Ok(token) => Ok(token@),
        Err(e) => Err(e),
    }
}

impl LyricToken {
    pub fn new(value: String, expiration_time_ms: u128) -> (token: Self)
        ensures
            token@ == (Token { value: value@, expiration_time_ms }),
    {
        LyricToken { value, expiration_time_ms }
    }

    /// The token itself.
    pub fn value(&self) -> (value: &String)
        ensures
            value@ == self@.value,
    {
        &self.value
    }

    /// When the token expires, in milliseconds since the epoch.
    pub fn expiration_time_ms(&self) -> (ms: u128)
        ensures
            ms == self@.expiration_time_ms,
    {
        self.expiration_time_ms
    }

    /// Whether the token can no longer be used at `now_ms`: it can up to and
    /// at its expiry.
    pub fn is_expired(&self, now_ms: u128) -> (expired: bool)
        ensures
            expired == (now_ms > self@.expiration_time_ms),
    {
        now_ms > self.expiration_time_ms
    }

    /// Reads the token from the document that the token endpoint answered.
    pub fn decode(document: &Json) -> (outcome: Result<LyricToken, AuthError>)
        ensures
            token_view(outcome) == token_of(document@),
    {
        let value = match document.get("accessToken") {
            Some(value) => match value.as_str() {
                Some(value) => value,
                None => {
                    return Err(AuthError::MissingField);
                },
            },
            None => {
                return Err(AuthError::MissingField);
            },
        };
        let timestamp_ms: i64 = match document.get("accessTokenExpirationTimestampMs") {
            Some(expiry) => match expiry.as_i64() {
                Some(ms) => ms,
                None => {
                    return Err(AuthError::MissingField);
                },
            },
            None => {
                return Err(AuthError::MissingField);
            },
        };
        let expiration_time_ms: u128 = if timestamp_ms >= 0 {
            timestamp_ms as u128
        } else {
            u128::MAX - ((-(timestamp_ms + 1)) as u128)
        };
        Ok(LyricToken { value: String::from_str(value), expiration_time_ms })
    }

    /// Reads the token from the body of the token endpoint's answer.
    pub fn from_response(body: &str) -> (outcome: Result<LyricToken, AuthError>)
        ensures
            token_view(outcome) == response_token(body@),
    {
        match Json::parse(body) {
            Ok(document) => LyricToken::decode(&document),
            Err(_) => Err(AuthError::Malformed),
        }
    }
}

/// The client: the session cookie, and the access token once one was had.
#[derive(Debug, PartialEq, Eq)]
pub struct RealtimeLyricsClient {
    sp_dc_cookie: String,
    access_token: Option<LyricToken>,
}

/// The mathematical value of a [`RealtimeLyricsClient`].
pub struct ClientState {
    pub cookie: Seq<char>,
    pub token: Option<Token>,
}

impl View for RealtimeLyricsClient {
    type V = ClientState;

    closed spec fn view(&self) -> ClientState {
        ClientState {
            cookie: self.sp_dc_cookie@,
            token: match self.access_token {
                Some(token) => Some(token@),
                None => None,
            },
        }
    }
}

impl Clone for RealtimeLyricsClient {
    fn clone(&self) -> (copy: Self)
        ensures
            copy@ == self@,
    {
        RealtimeLyricsClient {
            sp_dc_cookie: self.sp_dc_cookie.clone(),
            access_token: match &self.access_token {
                Some(token) => Some(token.clone()),
                None => None,
            },
        }
    }
}

/// What the application reports to [`RealtimeLyricsClient::get_lyrics`].
#[derive(Debug, PartialEq, Eq)]
pub enum LyricsEvent {
    /// Lyrics are wanted; nothing was asked yet.
    Start,
    /// The token endpoint answered with this body.
    TokenResponse(String),
    /// The token request did not go through.
    TokenFailure,
    /// The lyrics endpoint answered with this status and body.
    LyricsResponse { status: u16, body: String },
    /// The lyrics request did not go through.
    LyricsFailure,
}

/// The mathematical value of a [`LyricsEvent`].
pub enum Event {
    Start,
    TokenResponse(Seq<char>),
    TokenFailure,
    LyricsResponse { status: u16, body: Seq<char> },
    LyricsFailure,
}

impl View for LyricsEvent {
    type V = Event;

    open spec fn view(&self) -> Event {
        match self {
            LyricsEvent::Start => Event::Start,
            LyricsEvent::TokenResponse(body) => Event::TokenResponse(body@),
            LyricsEvent::TokenFailure => Event::TokenFailure,
            LyricsEvent::LyricsResponse { status, body } => Event::LyricsResponse {
                status: *status,
                body: body@,
            },
            LyricsEvent::LyricsFailure => Event::LyricsFailure,
        }
    }
}

/// What [`RealtimeLyricsClient::get_lyrics`] asks of the application.
#[derive(Debug, PartialEq, Eq)]
pub enum LyricsStep {
    /// The lyrics, or the reason why there are none: nothing more to do.
    Finish(Result<LyricResults, LyricsError>),
    /// Send this request to the token endpoint and report the answer.
    RequestToken(HttpRequest),
    /// Send this request to the lyrics endpoint and report the answer.
    RequestLyrics(HttpRequest),
}

/// The mathematical value of a [`LyricsStep`].
pub enum Step {
    Finish(Result<Lyrics, LyricsError>),
    RequestToken(Request),
    RequestLyrics(Request),
}

impl View for LyricsStep {
    type V = Step;

    open spec fn view(&self) -> Step {
        match self {
            LyricsStep::Finish(Ok(lyrics)) => Step::Finish(Ok(lyrics@)),
            LyricsStep::Finish(Err(e)) => Step::Finish(Err(*e)),
            LyricsStep::RequestToken(request) => Step::RequestToken(request@),
            LyricsStep::RequestLyrics(request) => Step::RequestLyrics(request@),
        }
    }
}

/// Whether a token has to be fetched at `now_ms`: none is held, or the one
/// held has expired.
pub open spec fn needs_token(token: Option<Token>, now_ms: u128) -> bool {
    match token {
        Some(t) => now_ms > t.expiration_time_ms,
        None => true,
    }
}

/// The request for an access token on behalf of the session `cookie`.
pub open spec fn token_request_of(cookie: Seq<char>) -> Request {
    Request {
        url: GET_TOKEN_URL@,
        headers: seq![
            ("User-Agent"@, "reqwest"@),
            ("app-platform"@, "WebPlayer"@),
            ("Cookie"@, "sp_dc="@ + cookie),
        ],
        query: Seq::empty(),
    }
}

/// The request for the lyrics of `track_id` with the access token `token`.
pub open spec fn lyrics_request_of(track_id: Seq<char>, token: Seq<char>) -> Request {
    Request {
        url: LYRICS_URL@ + track_id,
        headers: seq![("Authorization"@, "Bearer "@ + token), ("app-platform"@, "WebPlayer"@)],
        query: seq![
            ("market"@, "from_token"@),
            ("format"@, "json"@),
            ("vocalRemoval"@, "false"@),
        ],
    }
}

/// The client's state after `event`.
pub open spec fn state_after(state: ClientState, event: Event) -> ClientState {
    match event {
        Event::TokenResponse(body) => match response_token(body) {
            Ok(token) => ClientState { cookie: state.cookie, token: Some(token) },
            Err(_) => state,
        },
        _ => state,
    }
}

/// What the client asks next after `event`, for the lyrics of `track_id`
/// at the time `now_ms`.
pub open spec fn step_after(
    state: ClientState,
    track_id: Seq<char>,
    now_ms: u128,
    event: Event,
) -> Step {
    match event {
        Event::Start => if state.cookie.len() == 0 {
            Step::Finish(Ok(Lyrics::UnSynced(seq![MISSING_COOKIE@])))
        } else if needs_token(state.token, now_ms) {
            Step::RequestToken(token_request_of(state.cookie))
        } else {
            Step::RequestLyrics(lyrics_request_of(track_id, state.token.unwrap().value))
        },
        Event::TokenResponse(body) => match response_token(body) {
            Ok(token) => Step::RequestLyrics(lyrics_request_of(track_id, token.value)),
            Err(e) => Step::Finish(Err(LyricsError::Auth(e))),
        },
        Event::TokenFailure => Step::Finish(Err(LyricsError::Auth(AuthError::Transport))),
        Event::LyricsResponse { status, body } => match response_lyrics(status, body) {
            Ok(lyrics) => Step::Finish(Ok(lyrics)),
            Err(e) => Step::Finish(Err(LyricsError::Fetch(e))),
        },
        Event::LyricsFailure => Step::Finish(Err(LyricsError::Transport)),
    }
}

/// How many token requests it takes to hold a valid token at `now_ms`.
pub open spec fn token_fetches(state: ClientState, now_ms: u128) -> nat {
    if needs_token(state.token, now_ms) {
        1
    } else {
        0
    }
}

/// The client once it holds a valid token at `now_ms`: as it was where its
/// token was valid, else after the answer `body` of the token endpoint.
pub open spec fn with_valid_token(state: ClientState, now_ms: u128, body: Seq<char>) -> ClientState {
    if needs_token(state.token, now_ms) {
        state_after(state, Event::TokenResponse(body))
    } else {
        state
    }
}

/// Making the token valid twice with no time between takes one fetch at
/// most, and the second time changes nothing: a token that is valid is kept.
/// This holds where the token that the endpoint hands out is itself valid at
/// that time.
pub proof fn lemma_token_fetched_once(
    state: ClientState,
    now_ms: u128,
    first_body: Seq<char>,
    second_body: Seq<char>,
)
    requires
        response_token(first_body) is Ok,
        response_token(first_body).unwrap().expiration_time_ms >= now_ms,
    ensures
        ({
            let held = with_valid_token(state, now_ms, first_body);
            &&& token_fetches(state, now_ms) + token_fetches(held, now_ms) <= 1
            &&& with_valid_token(held, now_ms, second_body) == held
            &&& !needs_token(state.token, now_ms) ==> held == state
        }),
{
}

/// Once the token held has expired, making it valid takes exactly one fetch,
/// and the token fetched takes the place of the one held.
pub proof fn lemma_expired_token_replaced(state: ClientState, later_ms: u128, body: Seq<char>)
    requires
        state.token is Some,
        later_ms > state.token.unwrap().expiration_time_ms,
        response_token(body) is Ok,
    ensures
        token_fetches(state, later_ms) == 1,
        with_valid_token(state, later_ms, body).token == Some(response_token(body).unwrap()),
        with_valid_token(state, later_ms, body).cookie == state.cookie,
{
}

impl RealtimeLyricsClient {
    /// A client for the session cookie `sp_dc_cookie`. It holds no token
    /// yet: one is asked for when lyrics are first wanted.
    pub fn new(sp_dc_cookie: String) -> (client: Self)
        ensures
            client@ == (ClientState { cookie: sp_dc_cookie@, token: None }),
    {
        RealtimeLyricsClient { sp_dc_cookie, access_token: None }
    }

    /// The token that the client holds.
    pub fn access_token(&self) -> (token: Option<&LyricToken>)
        ensures
            match token {
                Some(t) => self@.token == Some(t@),
                None => self@.token is None,
            },
    {
        self.access_token.as_ref()
    }

    /// The token that can be used at `now_ms`, if one is held.
    fn usable_token(&self, now_ms: u128) -> (token: Option<&LyricToken>)
        ensures
            match token {
                Some(t) => !needs_token(self@.token, now_ms) && self@.token == Some(t@),
                None => needs_token(self@.token, now_ms),
            },
    {
        match &self.access_token {
            Some(token) => if token.is_expired(now_ms) {
                None
            } else {
                Some(token)
            },
            None => None,
        }
    }

    /// Whether a token has to be fetched before lyrics can be asked for at
    /// `now_ms`: none is held, or the one held has expired.
    pub fn ensure_valid_token(&self, now_ms: u128) -> (fetch: bool)
        ensures
            fetch == needs_token(self@.token, now_ms),
    {
        self.usable_token(now_ms).is_none()
    }

    /// The request that fetches a token.
    pub fn token_request(&self) -> (request: HttpRequest)
        ensures
            request@ == token_request_of(self@.cookie),
    {
        let mut headers: Vec<(String, String)> = Vec::new();
        assert(pairs_view(headers@) =~= Seq::empty());
        push_pair(&mut headers, "User-Agent", String::from_str("reqwest"));
        push_pair(&mut headers, "app-platform", String::from_str("WebPlayer"));
        push_pair(
            &mut headers,
            "Cookie",
            String::from_str("sp_dc=").concat(self.sp_dc_cookie.as_str()),
        );
        let query: Vec<(String, String)> = Vec::new();
        assert(pairs_view(headers@) =~= token_request_of(self@.cookie).headers);
        HttpRequest { url: String::from_str(GET_TOKEN_URL), headers, query }
    }

    /// Takes the body of the token endpoint's answer: the token in it
    /// replaces the one held. Where the body holds none, the client stays as
    /// it was.
    pub fn fetch_token(&mut self, body: &str) -> (outcome: Result<(), AuthError>)
        ensures
            final(self)@ == state_after(old(self)@, Event::TokenResponse(body@)),
            match outcome {
                Ok(_) => response_token(body@) is Ok,
                Err(e) => response_token(body@) == Err::<Token, AuthError>(e),
            },
    {
        match LyricToken::from_response(body) {
            Ok(token) => {
                self.access_token = Some(token);
                Ok(())
            },
            Err(e) => Err(e),
        }
    }

    /// One step towards the lyrics of `track_id_str`.
    ///
    /// The application starts with [`LyricsEvent::Start`], does what the
    /// step asks, and reports what came of it, until the step is
    /// [`LyricsStep::Finish`]. `now_ms` is the time in milliseconds since
    /// the epoch. Without a session cookie the lyrics are one line that says
    /// so; a token is asked for only where none is held or the one held has
    /// expired.
    pub fn get_lyrics(&mut self, track_id_str: &str, now_ms: u128, event: LyricsEvent) -> (step:
        LyricsStep)
        ensures
            final(self)@ == state_after(old(self)@, event@),
            step@ == step_after(old(self)@, track_id_str@, now_ms, event@),
    {
        match event {
            LyricsEvent::Start => {
                if self.sp_dc_cookie.as_str().is_empty() {
                    return LyricsStep::Finish(Ok(LyricResults::notice(MISSING_COOKIE)));
                }
                match self.usable_token(now_ms) {
                    Some(token) => LyricsStep::RequestLyrics(
                        lyrics_request(track_id_str, token.value.as_str()),
                    ),
                    None => LyricsStep::RequestToken(self.token_request()),
                }
            },
            LyricsEvent::TokenResponse(body) => match LyricToken::from_response(body.as_str()) {
                Ok(token) => {
                    let request = lyrics_request(track_id_str, token.value.as_str());
                    self.access_token = Some(token);
                    LyricsStep::RequestLyrics(request)
                },
                Err(e) => LyricsStep::Finish(Err(LyricsError::Auth(e))),
            },
            LyricsEvent::TokenFailure => LyricsStep::Finish(
                Err(LyricsError::Auth(AuthError::Transport)),
            ),
            LyricsEvent::LyricsResponse { status, body } => match lyrics_from_response(
                status,
                body.as_str(),
            ) {
                Ok(lyrics) => LyricsStep::Finish(Ok(lyrics)),
                Err(e) => LyricsStep::Finish(Err(LyricsError::Fetch(e))),
            },
            LyricsEvent::LyricsFailure => LyricsStep::Finish(Err(LyricsError::Transport)),
        }
    }
}

/// The request for the lyrics of `track_id` with the access token `token`.
pub fn lyrics_request(track_id: &str, token: &str) -> (request: HttpRequest)
    ensures
        request@ == lyrics_request_of(track_id@, token@),
{
    let mut headers: Vec<(String, String)> = Vec::new();
    push_pair(&mut headers, "Authorization", String::from_str("Bearer ").concat(token));
    push_pair(&mut headers, "app-platform", String::from_str("WebPlayer"));
    let mut query: Vec<(String, String)> = Vec::new();
    push_pair(&mut query, "market", String::from_str("from_token"));
    push_pair(&mut query, "format", String::from_str("json"));
    push_pair(&mut query, "vocalRemoval", String::from_str("false"));
    assert(pairs_view(headers@) =~= lyrics_request_of(track_id@, token@).headers);
    assert(pairs_view(query@) =~= lyrics_request_of(track_id@, token@).query);
    HttpRequest { url: String::from_str(LYRICS_URL).concat(track_id), headers, query }
}

} // verus!
