//! Build-time helper for compiling libpng into a static library artifact.
//!
//! The crate models the target-resolution and build-configuration engine:
//! which target triples are buildable from a given host, which configuration
//! options the native build tool receives for each target, where the compiled
//! artifact is expected to appear, and how the linker-visible library name is
//! derived from the artifact's file name.

use vstd::prelude::*;

pub mod artifact;
pub mod error;
pub mod host;
pub mod laws;
pub mod options;
pub mod orchestrate;
pub mod paths;
pub mod process;
pub mod strkit;
pub mod target;

verus! {

/// Version of the vendored libpng sources this package builds.
pub const LIBPNG_VERSION: &'static str = "1.6.43";

} // verus!
