//! Measurement engine of an internet speed test.
//!
//! The crate holds the decisions of a timed streaming download and a timed
//! upload: how bytes are counted, when a byte cap ends a download, how a
//! transfer and its duration become a rate, and how the two directions are
//! merged into one result. Network access, clocks and floating-point output
//! belong to the program that drives these functions.

pub mod buffer;
pub mod download_laws;
pub mod download_tester;
pub mod errors;
pub mod http_client;
pub mod rate;
pub mod speed_service;
pub mod text;
pub mod upload_tester;
