use spotify_player::http::HttpRequest;
use spotify_player::json::Json;
use spotify_player::lyrics::{LyricResults, SyncedLyric};
use spotify_player::payload::FetchError;
use spotify_player::realtime_lyrics::{
    lyrics_request, AuthError, LyricToken, LyricsError, LyricsEvent, LyricsStep,
    RealtimeLyricsClient, GET_TOKEN_URL, LYRICS_URL, MISSING_COOKIE,
};

fn pair(a: &str, b: &str) -> (String, String) {
    (a.to_string(), b.to_string())
}

fn token_body(value: &str, expiry: i64) -> String {
    format!("{{\"clientId\":\"c\",\"accessToken\":\"{}\",\"accessTokenExpirationTimestampMs\":{},\"isAnonymous\":false}}", value, expiry)
}

fn expected_token_request(cookie: &str) -> HttpRequest {
    HttpRequest {
        url: "https://open.spotify.com/get_access_token".to_string(),
        headers: vec![
            pair("User-Agent", "reqwest"),
            pair("app-platform", "WebPlayer"),
            pair("Cookie", &format!("sp_dc={}", cookie)),
        ],
        query: vec![],
    }
}

fn expected_lyrics_request(track: &str, token: &str) -> HttpRequest {
    HttpRequest {
        url: format!("https://spclient.wg.spotify.com/color-lyrics/v2/track/{}", track),
        headers: vec![
            pair("Authorization", &format!("Bearer {}", token)),
            pair("app-platform", "WebPlayer"),
        ],
        query: vec![pair("market", "from_token"), pair("format", "json"), pair("vocalRemoval", "false")],
    }
}

#[test]
fn addresses_and_notice() {
    assert_eq!(GET_TOKEN_URL, "https://open.spotify.com/get_access_token");
    assert_eq!(LYRICS_URL, "https://spclient.wg.spotify.com/color-lyrics/v2/track/");
    assert_eq!(MISSING_COOKIE, "Missing sp_dc_cookie");
}

#[test]
fn new_client_holds_no_token() {
    let client = RealtimeLyricsClient::new("cookie".to_string());
    assert_eq!(client.access_token(), None);
    assert!(client.ensure_valid_token(0));
    assert!(client.ensure_valid_token(u128::MAX));
}

#[test]
fn clone_keeps_cookie_and_token() {
    let mut client = RealtimeLyricsClient::new("cookie".to_string());
    assert_eq!(client.clone(), client);
    client.fetch_token(&token_body("tok", 77)).unwrap();
    let copy = client.clone();
    assert_eq!(copy, client);
    assert_eq!(copy.access_token(), Some(&LyricToken::new("tok".to_string(), 77)));
    assert_eq!(copy.token_request(), expected_token_request("cookie"));
}

#[test]
fn token_request_carries_the_cookie() {
    let client = RealtimeLyricsClient::new("abc123".to_string());
    assert_eq!(client.token_request(), expected_token_request("abc123"));
}

#[test]
fn lyrics_request_carries_track_and_token() {
    assert_eq!(lyrics_request("4uLU6hMCjMI75M1A2tKUQC", "tok"), expected_lyrics_request("4uLU6hMCjMI75M1A2tKUQC", "tok"));
    assert_eq!(lyrics_request("", ""), expected_lyrics_request("", ""));
}

#[test]
fn token_is_read_from_the_answer() {
    let token = LyricToken::from_response(&token_body("BQD-token", 1700000000000)).unwrap();
    assert_eq!(token.value(), "BQD-token");
    assert_eq!(token.expiration_time_ms(), 1700000000000);
    assert_eq!(token, LyricToken::new("BQD-token".to_string(), 1700000000000));
}

#[test]
fn token_answer_that_is_no_json_is_malformed() {
    assert_eq!(LyricToken::from_response(""), Err(AuthError::Malformed));
    assert_eq!(LyricToken::from_response("<html>"), Err(AuthError::Malformed));
}

#[test]
fn token_answer_without_token_misses_a_field() {
    assert_eq!(LyricToken::from_response("{}"), Err(AuthError::MissingField));
    assert_eq!(
        LyricToken::from_response("{\"accessTokenExpirationTimestampMs\":5}"),
        Err(AuthError::MissingField)
    );
    assert_eq!(
        LyricToken::from_response("{\"accessToken\":17,\"accessTokenExpirationTimestampMs\":5}"),
        Err(AuthError::MissingField)
    );
    assert_eq!(LyricToken::from_response("[]"), Err(AuthError::MissingField));
}

#[test]
fn token_answer_without_expiry_misses_a_field() {
    assert_eq!(LyricToken::from_response("{\"accessToken\":\"t\"}"), Err(AuthError::MissingField));
    assert_eq!(
        LyricToken::from_response("{\"accessToken\":\"t\",\"accessTokenExpirationTimestampMs\":\"5\"}"),
        Err(AuthError::MissingField)
    );
    assert_eq!(
        LyricToken::from_response("{\"accessToken\":\"t\",\"accessTokenExpirationTimestampMs\":1.5}"),
        Err(AuthError::MissingField)
    );
    assert_eq!(
        LyricToken::from_response("{\"accessToken\":\"t\",\"accessTokenExpirationTimestampMs\":9223372036854775808}"),
        Err(AuthError::MissingField)
    );
}

#[test]
fn negative_expiry_counts_down_from_the_top() {
    let token = LyricToken::from_response(&token_body("t", -1)).unwrap();
    assert_eq!(token.expiration_time_ms(), u128::MAX);
    let token = LyricToken::from_response(&token_body("t", i64::MIN)).unwrap();
    assert_eq!(token.expiration_time_ms(), i64::MIN as u128);
    let token = LyricToken::from_response(&token_body("t", -1000)).unwrap();
    assert_eq!(token.expiration_time_ms(), (-1000i64) as u128);
}

#[test]
fn decode_reads_a_document() {
    let doc = Json::Object(vec![
        ("accessToken".to_string(), Json::Text("v".to_string())),
        ("accessTokenExpirationTimestampMs".to_string(), Json::Number(Some(42))),
    ]);
    let token = LyricToken::decode(&doc).unwrap();
    assert_eq!(token.value(), "v");
    assert_eq!(token.expiration_time_ms(), 42);
    let doc = Json::Object(vec![
        ("accessToken".to_string(), Json::Text("v".to_string())),
        ("accessTokenExpirationTimestampMs".to_string(), Json::Number(None)),
    ]);
    assert_eq!(LyricToken::decode(&doc), Err(AuthError::MissingField));
}

#[test]
fn token_expires_strictly_after_its_expiry() {
    let token = LyricToken::new("t".to_string(), 1000);
    assert!(!token.is_expired(0));
    assert!(!token.is_expired(999));
    assert!(!token.is_expired(1000));
    assert!(token.is_expired(1001));
    assert!(token.is_expired(u128::MAX));
    assert_eq!(token.clone(), token);
}

#[test]
fn fetch_token_replaces_the_token() {
    let mut client = RealtimeLyricsClient::new("c".to_string());
    assert_eq!(client.fetch_token(&token_body("first", 1000)), Ok(()));
    assert_eq!(client.access_token(), Some(&LyricToken::new("first".to_string(), 1000)));
    assert_eq!(client.fetch_token(&token_body("second", 2000)), Ok(()));
    assert_eq!(client.access_token(), Some(&LyricToken::new("second".to_string(), 2000)));
}

#[test]
fn fetch_token_keeps_the_token_on_failure() {
    let mut client = RealtimeLyricsClient::new("c".to_string());
    assert_eq!(client.fetch_token(&token_body("first", 1000)), Ok(()));
    assert_eq!(client.fetch_token("nonsense"), Err(AuthError::Malformed));
    assert_eq!(client.fetch_token("{\"accessToken\":\"x\"}"), Err(AuthError::MissingField));
    assert_eq!(client.access_token(), Some(&LyricToken::new("first".to_string(), 1000)));
}

#[test]
fn ensure_valid_twice_fetches_once() {
    let mut client = RealtimeLyricsClient::new("c".to_string());
    let now = 5000;
    let mut fetches = 0;
    for _ in 0..2 {
        if client.ensure_valid_token(now) {
            fetches += 1;
            client.fetch_token(&token_body("tok", 9000)).unwrap();
        }
    }
    assert_eq!(fetches, 1);
    assert_eq!(client.access_token(), Some(&LyricToken::new("tok".to_string(), 9000)));
    assert!(!client.ensure_valid_token(9000));
}

#[test]
fn ensure_valid_after_expiry_fetches_once_more() {
    let mut client = RealtimeLyricsClient::new("c".to_string());
    client.fetch_token(&token_body("old", 9000)).unwrap();
    let mut fetches = 0;
    for now in [9001u128, 9001, 9002] {
        if client.ensure_valid_token(now) {
            fetches += 1;
            client.fetch_token(&token_body("new", 20000)).unwrap();
        }
    }
    assert_eq!(fetches, 1);
    assert_eq!(client.access_token(), Some(&LyricToken::new("new".to_string(), 20000)));
}

#[test]
fn a_token_that_comes_expired_is_fetched_again() {
    let mut client = RealtimeLyricsClient::new("c".to_string());
    let now = 5000;
    let mut fetches = 0;
    for _ in 0..2 {
        if client.ensure_valid_token(now) {
            fetches += 1;
            client.fetch_token(&token_body("stale", 4000)).unwrap();
        }
    }
    assert_eq!(fetches, 2);
}

#[test]
fn without_cookie_the_lyrics_say_so() {
    let mut client = RealtimeLyricsClient::new(String::new());
    let step = client.get_lyrics("track", 0, LyricsEvent::Start);
    assert_eq!(
        step,
        LyricsStep::Finish(Ok(LyricResults::UnSynced { lyrics: vec!["Missing sp_dc_cookie".to_string()] }))
    );
    assert_eq!(client.access_token(), None);
}

#[test]
fn first_step_asks_for_a_token() {
    let mut client = RealtimeLyricsClient::new("cookie".to_string());
    let step = client.get_lyrics("track", 100, LyricsEvent::Start);
    assert_eq!(step, LyricsStep::RequestToken(expected_token_request("cookie")));
    assert_eq!(client.access_token(), None);
}

#[test]
fn token_answer_leads_to_the_lyrics_request() {
    let mut client = RealtimeLyricsClient::new("cookie".to_string());
    let step = client.get_lyrics("trk", 100, LyricsEvent::TokenResponse(token_body("tok", 50)));
    assert_eq!(step, LyricsStep::RequestLyrics(expected_lyrics_request("trk", "tok")));
    assert_eq!(client.access_token(), Some(&LyricToken::new("tok".to_string(), 50)));
}

#[test]
fn bad_token_answer_ends_with_the_error() {
    let mut client = RealtimeLyricsClient::new("cookie".to_string());
    let step = client.get_lyrics("trk", 100, LyricsEvent::TokenResponse("oops".to_string()));
    assert_eq!(step, LyricsStep::Finish(Err(LyricsError::Auth(AuthError::Malformed))));
    let step = client.get_lyrics("trk", 100, LyricsEvent::TokenResponse("{}".to_string()));
    assert_eq!(step, LyricsStep::Finish(Err(LyricsError::Auth(AuthError::MissingField))));
    assert_eq!(client.access_token(), None);
}

#[test]
fn failed_token_request_ends_with_transport() {
    let mut client = RealtimeLyricsClient::new("cookie".to_string());
    let step = client.get_lyrics("trk", 100, LyricsEvent::TokenFailure);
    assert_eq!(step, LyricsStep::Finish(Err(LyricsError::Auth(AuthError::Transport))));
    assert_eq!(client.access_token(), None);
}

#[test]
fn failed_lyrics_request_ends_with_transport() {
    let mut client = RealtimeLyricsClient::new("cookie".to_string());
    client.fetch_token(&token_body("tok", 1000)).unwrap();
    let step = client.get_lyrics("trk", 100, LyricsEvent::LyricsFailure);
    assert_eq!(step, LyricsStep::Finish(Err(LyricsError::Transport)));
    assert_eq!(client.access_token(), Some(&LyricToken::new("tok".to_string(), 1000)));
}

#[test]
fn valid_token_goes_straight_to_the_lyrics_request() {
    let mut client = RealtimeLyricsClient::new("cookie".to_string());
    client.fetch_token(&token_body("tok", 1000)).unwrap();
    let step = client.get_lyrics("trk", 1000, LyricsEvent::Start);
    assert_eq!(step, LyricsStep::RequestLyrics(expected_lyrics_request("trk", "tok")));
    let step = client.get_lyrics("trk", 1001, LyricsEvent::Start);
    assert_eq!(step, LyricsStep::RequestToken(expected_token_request("cookie")));
    assert_eq!(client.access_token(), Some(&LyricToken::new("tok".to_string(), 1000)));
}

#[test]
fn lyrics_answer_ends_with_the_lyrics() {
    let mut client = RealtimeLyricsClient::new("cookie".to_string());
    let body = r#"{"lyrics":{"syncType":"LINE_SYNCED","lines":[{"words":"la","startTimeMs":"3000"}]}}"#;
    let step = client.get_lyrics("trk", 1, LyricsEvent::LyricsResponse { status: 200, body: body.to_string() });
    assert_eq!(
        step,
        LyricsStep::Finish(Ok(LyricResults::Synced {
            lyrics: vec![
                SyncedLyric { words: "♪".to_string(), start_time_ms: 0 },
                SyncedLyric { words: "la".to_string(), start_time_ms: 3000 },
            ],
        }))
    );
    let step = client.get_lyrics("trk", 1, LyricsEvent::LyricsResponse { status: 404, body: String::new() });
    assert_eq!(
        step,
        LyricsStep::Finish(Ok(LyricResults::UnSynced { lyrics: vec!["no lyrics for this song".to_string()] }))
    );
    let step = client.get_lyrics("trk", 1, LyricsEvent::LyricsResponse { status: 200, body: "{}".to_string() });
    assert_eq!(step, LyricsStep::Finish(Err(LyricsError::Fetch(FetchError::Malformed))));
}

#[test]
fn a_whole_conversation() {
    let mut client = RealtimeLyricsClient::new("sess".to_string());
    let mut requests = Vec::new();
    let mut step = client.get_lyrics("id1", 10, LyricsEvent::Start);
    let result = loop {
        match step {
            LyricsStep::Finish(result) => break result,
            LyricsStep::RequestToken(request) => {
                requests.push(request.url);
                step = client.get_lyrics("id1", 10, LyricsEvent::TokenResponse(token_body("T", 99)));
            }
            LyricsStep::RequestLyrics(request) => {
                requests.push(request.url);
                let body = r#"{"lyrics":{"syncType":"UNSYNCED","lines":[{"words":"x"}]}}"#.to_string();
                step = client.get_lyrics("id1", 10, LyricsEvent::LyricsResponse { status: 200, body });
            }
        }
    };
    assert_eq!(result, Ok(LyricResults::UnSynced { lyrics: vec!["x".to_string()] }));
    assert_eq!(
        requests,
        vec![
            "https://open.spotify.com/get_access_token".to_string(),
            "https://spclient.wg.spotify.com/color-lyrics/v2/track/id1".to_string(),
        ]
    );
    let step = client.get_lyrics("id2", 11, LyricsEvent::Start);
    assert_eq!(step, LyricsStep::RequestLyrics(expected_lyrics_request("id2", "T")));
}
