//! Resolution of a full personal name against a rate-limited name database.
//!
//! The library holds the decisions of a resolution: how a provider reply is
//! classified, how the usage catalog of a first name is built and widened,
//! how failed attempts are gathered, and which provider call comes next.
//! The caller performs the calls and hands each reply back.
//!
//! - `types`: genders, modes, resolved names and errors.
//! - `usage`: usage records.
//! - `reply`: raw replies and their classification.
//! - `rewrite`: the rewrite table for usage codes.
//! - `catalog`: the usage catalog of a first name.
//! - `aggregator`: diagnostics of failed attempts.
//! - `resolver`: the state machine of a resolution.
//! - `probing`: what holds of every probing run.
//! - `links`, `message`: how names and outcomes are shown.
//! - `pages`: the search for the pages of names.
//! - `text`: helpers on strings.

pub mod aggregator;
pub mod catalog;
pub mod links;
pub mod message;
pub mod pages;
pub mod probing;
pub mod reply;
pub mod resolver;
pub mod rewrite;
pub mod text;
pub mod types;
pub mod usage;
