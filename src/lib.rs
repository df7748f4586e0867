//! Capability nodes: objects that describe their getters and updaters and run
//! them on request, either in process or inside a foreign scripting runtime,
//! and the registry that builds them from configuration.
use vstd::prelude::*;

pub mod args;
pub mod base;
pub mod node;
pub mod python;
pub mod registry;

verus! {

} // verus!
