//! Runtime configuration of a Raft node: the value type with its defaults,
//! the parsers for its textual forms, a builder that layers explicit
//! overrides over environment values over defaults, and the validator of
//! the cross-field invariants that the consensus protocol relies on.
use vstd::prelude::*;

pub mod error;
pub mod config;
pub mod parse;
pub mod builder;

pub use config::Config;
pub use config::SnapshotPolicy;
pub use error::{ConfigError, Field, ParseError};

verus! {

} // verus!
