//! The AI helper: a prompt that describes the tool and the operator's environment, sent to
//! the configured provider.
pub mod command;
