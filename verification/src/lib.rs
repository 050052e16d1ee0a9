//! Sunberry: the logic of a solar-powered Raspberry Pi's measurement
//! collector and web site, verified with Verus.
//!
//! - `stats` and `systeminfo`: byte counts and process lists as the status
//!   pages show them;
//! - `pages`: home and markdown pages, image galleries, titles;
//! - `api` and `sql`: query windows and the SQL text sent to the database;
//! - `schedule` and `measure`: the collector's pace and choices;
//! - `ezlogger`: which log records are written and how a line reads;
//! - `server`: where the web server listens;
//! - `text`: decimal numerals, prefix tests and pattern replacement.
use vstd::prelude::*;

pub mod api;
pub mod ezlogger;
pub mod measure;
pub mod pages;
pub mod schedule;
pub mod server;
pub mod sql;
pub mod stats;
pub mod systeminfo;
pub mod text;

verus! {
} // verus!
