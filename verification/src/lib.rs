//! A content synchronisation engine: it pulls a paginated feed of posts, merges each
//! page into a local collection keyed by the feed's own identifiers, lets only one
//! run be active at a time, and leaves one audit record per run.
//!
//! The engine is a state machine (`sync_post`). It decides; the program round it
//! performs what it asks for (a request, a write) and hands back what happened.
//! `sync_run` states what holds of every run, whatever happens outside; `merge`
//! states what merging a page does to a store. `sync_job` and `post_store` hold the
//! lock and the posts in memory, for a program that needs no more and as the
//! measure of one that does.

pub mod dao;
pub mod errors;
pub mod ids;
pub mod jwt_auth;
pub mod merge;
pub mod post_store;
pub mod posts;
pub mod redis_pubsub;
pub mod sync_job;
pub mod sync_post;
pub mod sync_run;
pub mod util;
