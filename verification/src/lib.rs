//! Decision core of an anonymous suggestion bot: localized texts, an
//! in-memory store of submissions, admins, bans and per-user dialogue
//! states, and the handlers that turn an incoming update into the
//! list of outgoing requests.

pub mod text;
pub mod locales;
pub mod uid;
pub mod seq_facts;
pub mod clock;
pub mod db;
pub mod config;
pub mod bot;
