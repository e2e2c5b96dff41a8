//! A download engine. It fetches single files over HTTP with resumption,
//! the assets of releases on GitHub and GitLab, and artifacts from
//! container registries.
//!
//! The library takes every decision of a download and performs none of its
//! input or output: a caller sends the requests, reads the bodies and
//! touches the files that the library names. [`transfer`] holds the state
//! machine of one transfer, [`downloader`] sets up file downloads and plans
//! the layers of an artifact, [`platform`] looks up releases, and [`utils`]
//! holds the name filter that they share.
pub mod archive;
pub mod decimal;
pub mod downloader;
pub mod error;
pub mod foreign;
pub mod github;
pub mod gitlab;
pub mod headers;
pub mod http_client;
pub mod oci;
pub mod path;
pub mod platform;
pub mod prompt;
pub mod resume;
pub mod text;
pub mod transfer;
pub mod utils;
