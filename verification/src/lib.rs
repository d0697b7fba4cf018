//! Verified core of a small community web server: user accounts and their
//! rights, posts and their visibility, access decisions of the HTTP API,
//! the Albert Heijn product catalogue refresh, and the text formats that the
//! server writes (cache keys, tokens, URLs).

pub mod seqs;
pub mod text;
pub mod time;
pub mod users;
pub mod posts;
pub mod api;
pub mod config;
pub mod state;
pub mod services;
pub mod misc;
pub mod jobs;
pub mod databases;
