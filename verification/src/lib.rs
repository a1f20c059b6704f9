//! A service that takes songs from the song queue of a music API, writes
//! their queued metadata and cover art into the song files, uploads the
//! edited files, creates the song and cover art records and cleans up.
//!
//! The decisions of the service are the state machine in `service`; the
//! requests it sends are built in `api` and `auth`.

pub mod api;
pub mod auth;
pub mod config;
pub mod ids;
pub mod laws;
pub mod metadata;
pub mod models;
pub mod parser;
pub mod queue;
pub mod queued_item;
pub mod request;
pub mod responses;
pub mod service;
pub mod text;
pub mod the_rest;
pub mod update_queued_song;
pub mod util;
