//! Kinds of plug-ins.
use vstd::prelude::*;

verus! {

/// The kind of a plug-in.
#[derive(Clone, Copy, Debug, PartialEq, Eq, Structural)]
pub enum PluginType {
    /// Not known; no registration names it.
    Unknown,
    /// A library that is loaded.
    Library,
    /// Resources only; nothing is loaded.
    Resource,
}

} // verus!
