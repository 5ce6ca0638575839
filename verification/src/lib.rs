//! Packs files into a gzip-compressed tar archive and moves such archives to
//! and from an S3-compatible object store through presigned requests.
//!
//! The library computes; it performs no I/O. A caller reads files, sends the
//! requests that the library signs, and reports what came back.

pub mod archive;
pub mod bucket;
pub mod config;
pub mod error;
pub mod object;
pub mod paths;
pub mod protocol;
pub mod session;
pub mod signing;
pub mod transfer;
pub mod upload;
