//! Verified core of a relay between a front end and a music-streaming
//! platform's web API: the OAuth (PKCE) login and callback decisions, the
//! shaping of the listening-history records, and the checks on upstream
//! replies. Network I/O, JSON (de)serialisation of the library's records and
//! the HTTP server live outside this crate's verified part.

pub mod auth;
pub mod model;
pub mod profile;
pub mod text;
pub mod top;
