//! Renaming the repositories of an account between kebab-case and snake-case.
//!
//! The library decides; a driver performs. Every request, prompt and notice of
//! a run is computed here from plain values, and each decision is stated as a
//! contract over the text it reads and produces.

pub mod config;
pub mod confirm;
pub mod credential;
pub mod error;
pub mod naming;
pub mod notice;
pub mod renamer;
pub mod request;
pub mod text;
pub mod workflow;

pub use crate::config::Config;
pub use crate::confirm::is_confirmation;
pub use crate::credential::resolve_credential;
pub use crate::error::RenameError;
pub use crate::naming::{format_arg_to_enum, format_name, Format};
pub use crate::notice::Notice;
pub use crate::renamer::{Action, Event, Phase, Renamer, Step};
pub use crate::request::{Method, Repo, Request};
