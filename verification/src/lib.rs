//! Device capability discovery and shader pipeline compilation support for a
//! graphics-API abstraction layer.
//!
//! The `device` module models one candidate device's queue topology, extension
//! list and optional-feature availability, built from plain values that the
//! driver boundary reports. The `imports` module resolves textual source
//! import directives against an origin directory. The `shader` module maps
//! pipeline stages to compiler targets and validates compiled binaries as
//! word-aligned instruction streams.

pub mod device;
pub mod imports;
pub mod shader;
