//! Monitors a local tunneling service: polls its API for the current public
//! URL, detects changes against the last-seen value, and prepares an email
//! notification whenever the URL changes.

pub mod config;
pub mod fetch;
pub mod monitor;
pub mod notify;
pub mod text;
