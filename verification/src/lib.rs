//! Core of a dynamic-library binding layer: a registry that loads and caches
//! native library handles, a symbol resolver, and the buffer-exchange
//! protocol used to move variable-length text across the native boundary.
//!
//! The operating-system primitives themselves (opening a shared library,
//! looking up a symbol) cannot be verified; the registry and the protocol
//! are written against explicit outcome values, so every decision the layer
//! makes is proved here, and a small unverified driver performs the calls.

pub mod errors;
pub mod identifier;
pub mod loader;
pub mod pathlist;
pub mod protocol;
pub mod registry;
pub mod resolver;
