//! Core logic of a clipboard monitor: content fingerprinting, duplicate
//! suppression, text classification, and the decision logic of a resilient
//! upload pipeline with linear endpoint failover.

pub mod classify;
pub mod config;
pub mod debounce;
pub mod hash;
pub mod uploader;
pub mod watcher;
