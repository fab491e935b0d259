//! A small client library for GitHub's gist service.
//!
//! A gist is a named collection of text files hosted by the service, with a
//! visibility flag and an optional description. This crate builds the gist
//! document, serializes it to the JSON shape the service expects, constructs
//! the HTTP requests for creating and listing gists, and interprets the
//! responses. Performing the network calls, reading local files and resolving
//! credentials from the environment are left to the embedding program.

pub mod client;
pub mod config;
pub mod error;
pub mod gist;
pub mod gist_file;
pub mod gist_repo;
pub mod json;
pub mod response;
pub mod text;
