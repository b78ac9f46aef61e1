//! Dynamic-DNS updater: keeps a provider's A/AAAA records in line with a
//! client's address, using a key-value cache to avoid redundant provider calls.

pub mod auth;
pub mod config;
pub mod dns;
pub mod ip;
pub mod reconcile;
pub mod request;
pub mod response;
pub mod service;
pub mod text;
pub mod trace;
