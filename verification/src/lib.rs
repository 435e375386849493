//! A small paste-storage library: validated identifiers and content, a
//! repository abstraction over "store a paste" and "fetch it back by
//! identifier", and the request-level operations that compose validation
//! with storage.
//!
//! The HTTP server around it lives outside this crate; everything here is
//! ordinary sequential logic with contracts.

pub mod dao;
pub mod domain;
pub mod routes;
