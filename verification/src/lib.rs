//! Launcher logic for building an encrypted disk image via the platform's
//! image utility: configuration defaults, argument assembly, passphrase
//! redaction for logging, platform guarding, and exit-status interpretation.

pub mod command;
pub mod config;
pub mod outcome;
pub mod redact;
pub mod strutil;
