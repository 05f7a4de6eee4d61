//! Archival engine for a public discussion board.
//!
//! The crate holds the rules of the archiver and proves them: how threads
//! are admitted by the configured filters, how a post is turned into the
//! work that archives it, where a blob lives in the store, what an upsert
//! does to a stored post, how the wire client builds its requests and reads
//! their answers, and the scheduler that drives all of it.
//!
//! The library does no I/O. Network, database and filesystem access belong
//! to the program around it, which carries out the actions that the
//! scheduler hands out and reports what came of them.
//!
//! - [`archiver`]: the scheduler, one step at a time, and the permits in
//!   [`permits`] that bound what is in flight.
//! - [`unit`]: the tasks that archive one post.
//! - [`client`]: requests, answers, and the ledger behind conditional
//!   requests.
//! - [`filter`] and [`config`]: which threads a board keeps.
//! - [`storage`]: blob stores, the layout of a store on disk, and saving a
//!   blob only where it is absent.
//! - [`repository`] and [`statement`]: what an upsert does, as a map of
//!   stored posts and as a statement with its bound values.
//! - [`board`], [`thread`], [`post`]: what the remote serves.
//! - [`web`]: what the front end decides.
//! - [`text`], [`error`]: numerals and failures.

pub mod archiver;
pub mod board;
pub mod client;
pub mod config;
pub mod error;
pub mod filter;
pub mod permits;
pub mod post;
pub mod repository;
pub mod statement;
pub mod storage;
pub mod text;
pub mod thread;
pub mod unit;
pub mod web;
