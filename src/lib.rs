//! Classifies the validity of a browser user-agent string.
//!
//! A user-agent string is handed to a family classifier, the family name it
//! reports is mapped to one of three verdicts, and the verdict travels over
//! the wire as a small integer.
pub mod text;

pub mod client;
pub mod engine;
pub mod protocol;
pub mod service;

