use vstd::prelude::*;

pub mod auth;
pub mod borrowed;
pub mod cache;
pub mod client;
pub mod conflict;
pub mod diff;
pub mod error;
pub mod types;

pub use error::{Error, ErrorCategory};
pub use types::{Depth, NativeEOL, NodeKind, Revision, Revnum};

verus! {
} // verus!
