//! Runtime access to the native NDI library.
//!
//! Two pieces make up the crate. The [`registry`] keeps the slot that holds
//! the resolved library once it has been loaded, and decides what a load
//! attempt does to it. The [`guard`] pairs a handle that the native library
//! handed out with the function that releases it.

pub mod guard;
pub mod registry;
