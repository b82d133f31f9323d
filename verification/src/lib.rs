//! Publishes multi-platform container image manifest indices.
//!
//! The library turns independently stored, single-platform image manifests
//! into a content-addressed multi-platform manifest index (or a plain retag)
//! and plans its publication to destination registries. Network transport is
//! supplied by the caller; everything the library decides — digests, URLs,
//! integrity checks, replication and publish plans, index documents — is
//! stated in contracts and verified.

use vstd::prelude::*;

pub mod coord;
pub mod digest;
pub mod error;
pub mod index;
pub mod job;
pub mod kms;
pub mod kubectl;
pub mod manifest;
pub mod registry;
pub mod rollout;
pub mod text;

verus! {

/// The OAuth scopes a subcommand's requests need.
pub trait Scopes {
    fn scopes(&self) -> &'static [&'static str];
}

} // verus!
