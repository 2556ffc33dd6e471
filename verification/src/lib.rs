//! Core of a Brave Search tool server: country/language code codecs, a
//! dual-window rate limiter, upstream request planning, and formatting of
//! the three upstream response shapes into plain text.
pub mod codes;
pub mod errors;
pub mod format;
pub mod rate;
pub mod requests;
pub mod results;
pub mod service;
pub mod text;
