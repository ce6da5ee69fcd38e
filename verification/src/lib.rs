//! Client-side session management for a ship's cookie-authenticated HTTP
//! control API: establishing an authenticated session, deriving the ship's
//! identity from the session cookie, and issuing authenticated PUT requests
//! that replay the stored credential verbatim.

pub mod auth;
pub mod error;
pub mod interface;
