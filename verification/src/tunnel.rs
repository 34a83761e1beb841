//! The session with ngrok cloud: what is sent over it, and when it is dialed again.
pub mod raw_session;
pub mod reconnecting;
pub mod routes;
