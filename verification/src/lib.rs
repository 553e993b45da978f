//! The rules of a paste sharing service: the ids of pastes and the URLs
//! they are served under, responses and their headers, the tiers of the
//! edge cache and what a change to a paste purges from them.
//!
//! Every function states what it returns in a contract that Verus proves.
//! What is taken on trust is the behaviour of a few functions of `std`,
//! `base64` and `url`; each of them is marked where it stands.

pub mod assets;
pub mod cache;
pub mod config;
pub mod date;
pub mod headers;
pub mod id;
pub mod lua;
pub mod meta;
pub mod model;
pub mod response;
pub mod sentry;
pub mod sentry_client;
pub mod session;
pub mod storage;
pub mod style;
pub mod text;
pub mod tree;
pub mod user;
pub mod utils;
