//! Client-side logic of a code-search tool: it splits a raw query into a
//! free-text search term and `key:value` restrictions, builds the search
//! request, decides each per-item download step, and joins search hits with
//! download outcomes into one ordered result list.
//!
//! The host layer around this library performs the HTTP requests and the
//! file writes; everything it decides with — URLs, header values, cache file
//! names, per-item decisions, error texts, and the final ordered list — is
//! computed and verified here.
pub mod aggregate;
pub mod download;
pub mod http;
pub mod query;
pub mod results;
pub mod search;
pub mod text;
