//! A sandboxed script-execution handler: it confines an untrusted request
//! path to a document root, reads the script found there, runs it in an
//! embedded Python interpreter while capturing the script's standard output,
//! and packages the captured text into a status-plus-body response.
//!
//! Filesystem access (canonicalizing paths, reading the script file) happens
//! in the surrounding process, which feeds this library plain strings; every
//! decision taken on those strings is verified here.

pub mod errors;
pub mod resolve;
pub mod response;
pub mod session;
pub mod source;
pub mod handler;
