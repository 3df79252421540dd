//! Build-time resolution logic for the SUNDIALS native library: feature
//! selection, sparse-solver discovery, vendor configuration, binding
//! generation settings, version recovery from generated bindings, and the
//! fallback state machine that decides what gets linked.
pub mod features;
pub mod sniff;
pub mod location;
pub mod vendor;
pub mod codegen;
pub mod link;
pub mod resolve;
