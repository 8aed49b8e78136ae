//! Command compiler and layered option resolver for a browser-automation
//! command line: free-form argument vectors become structured action
//! envelopes, and configuration sources merge into one options record.

pub mod actions;
pub mod command;
pub mod compile;
pub mod config;
pub mod diff;
pub mod envelope;
pub mod error;
pub mod external;
pub mod flags;
pub mod numbers;
pub mod page;
pub mod query;
pub mod session;
pub mod settings;
pub mod state;
pub mod text;
