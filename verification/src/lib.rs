//! A handle-based bridge between a C-only host and the Nominal SDK.
//!
//! The library holds everything the exported C surface decides: error codes
//! and the last-error message, the caller-buffer string protocol, handle
//! registries, staged create/update/ingest parameters and the requests they
//! turn into, and the plain records that field getters read.

pub mod text;
pub mod error;
pub mod strings;
pub mod sorted;
pub mod handles;
pub mod time;
pub mod fields;
pub mod staging;
pub mod actions;
pub mod search;
pub mod client;
pub mod asset;
pub mod dataset;
pub mod video;
pub mod run;
pub mod channel;
pub mod ingest;
pub mod template;
pub mod user;
pub mod workspace;
pub mod workbook;
pub mod bridge;
pub mod laws;
pub mod staged_laws;
