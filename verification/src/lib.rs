//! Real-time lyrics for a terminal music player, and the key handling of
//! its pages, each function with a machine-checked contract.
//!
//! - [`realtime_lyrics`] keeps the session cookie and the access token and
//!   says which request comes next; [`payload`] decodes what the lyrics
//!   endpoint answers; [`cache`] keeps lyrics by track; [`service`] puts the
//!   three behind one operation.
//! - [`lyric_page`] is the lyric page, which follows playback or seeks with
//!   a cursor; [`page`] holds the other pages; [`popup`] the popups.
//! - [`json`] and [`decimal`] read JSON documents and decimal integers.
//!
//! The library sends nothing and reads no clock: it takes the time and the
//! answers as values and hands back what is to be done.

pub mod cache;
pub mod command;
pub mod decimal;
pub mod http;
pub mod json;
pub mod lyric_page;
pub mod lyrics;
pub mod model;
pub mod page;
pub mod payload;
pub mod popup;
pub mod realtime_lyrics;
pub mod service;
