//! Authentication core of a movie review site: signed, time-bounded session
//! tokens, the request guards built on them, and the credential flow.
pub mod encoding;
pub mod guards;
pub mod jwt;
pub mod movies;
pub mod session;
pub mod users;
