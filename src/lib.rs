//! Finds what anime, manga or artwork a picture shows: hits from several
//! reverse-image search engines are enriched by metadata providers and the
//! records found for each hit are merged by priority; a cache of perceptual
//! hashes recognises pictures that were searched before.
//!
//! The network calls live with the caller; this crate decides what to ask,
//! and builds, filters, merges and selects from what came back.

pub mod cache;
pub mod config;
pub mod engines;
pub mod enrichment;
pub mod layout;
pub mod links;
pub mod manga;
pub mod merge;
pub mod orchestrator;
pub mod providers;
pub mod records;
pub mod search_hit;
pub mod service;
pub mod text;
