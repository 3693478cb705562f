//! Selection resolution and download orchestration for acquiring
//! operating-system images.
//!
//! The crate models a catalog of OS entries, each offering a set of
//! (release, edition, architecture) configurations. A [`selection`]
//! resolver narrows the three dependent dimensions while keeping the
//! candidate sets of every dimension consistent with the other two,
//! derives a default name for the chosen configuration, and commits the
//! selection to an immutable resolved configuration. A [`download`]
//! orchestrator folds progress events from concurrent file transfers
//! into per-transfer states, exposes the aggregate completion
//! predicate, and supports all-or-nothing cancellation.

pub mod arch;
pub mod catalog;
pub mod config;
pub mod creation;
pub mod dedup;
pub mod download;
pub mod name;
pub mod selection;
pub mod text;
