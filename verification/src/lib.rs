//! Parameters of a roguelike run: a theme, a mode and a set of optional flags
//! are checked against each other and turned into one ordered configuration
//! map, together with the warnings on whatever input is ignored.
//!
//! `RoguelikeParams::into_parameters_no_context` does the work. Its result
//! is stated by `resolve::resolve`, step by step, and by the table in
//! `table`, key by key; `laws` holds what follows for every resolution.

pub mod awards;
pub mod config;
pub mod entries;
pub mod error;
pub mod keys;
pub mod laws;
pub mod mode;
pub mod params;
pub mod resolve;
pub mod table;
pub mod text;
pub mod theme;
pub mod warnings;

pub use crate::config::{ConfigurationMap, Value};
pub use crate::error::{ParamError, Warning};
pub use crate::params::RoguelikeParams;
pub use crate::resolve::Resolution;
pub use crate::theme::Theme;
