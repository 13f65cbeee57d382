//! Adding mods to a profile.
//!
//! A mod is named by an identifier and found at one of three providers:
//! CurseForge, GitHub or Modrinth. This library holds what is decided on the
//! way, and proves it:
//!
//! - [`identifier`]: which provider an identifier belongs to;
//! - [`checks`]: the flags that gate the compatibility checks;
//! - [`error`]: one error type for the failures of all three providers;
//! - [`batch`]: the books of a batch, in which a failure of one identifier
//!   leaves the others untouched;
//! - [`iter_ext`]: shorthands for iterators.
//!
//! The library does no I/O. Whoever talks to the providers asks [`route`]
//! where to go and hands the outcome to a [`Batch`].

pub mod batch;
pub mod checks;
pub mod error;
pub mod identifier;
pub mod iter_ext;

pub use batch::Batch;
pub use checks::Checks;
pub use error::{Error, Result};
pub use identifier::{parse_project_id, route, split_repository, Route};
