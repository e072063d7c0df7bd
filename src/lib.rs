//! A small local server's logic: the port scan it starts with, the API key it keeps in
//! memory and in a persisted record, the static files it serves, and its replies.

pub mod asset;
pub mod keystore;
pub mod port;
pub mod reply;
