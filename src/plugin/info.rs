//! The contents of a plug-in registration file.
use vstd::prelude::*;

use super::registration_metadata::RegistrationMetadata;

verus! {

/// No plug-ins: what a file that names none declares.
pub fn default_plugins() -> (r: Vec<RegistrationMetadata>)
    ensures
        r@.len() == 0,
{
    Vec::new()
}

/// No included files: what a file that names none declares.
pub fn default_includes() -> (r: Vec<String>)
    ensures
        r@.len() == 0,
{
    Vec::new()
}

/// The plug-ins that a registration file declares, and the other files
/// that it includes.
#[derive(Debug)]
pub struct PluginInfo {
    /// The plug-ins declared.
    pub plugins: Vec<RegistrationMetadata>,
    /// The paths of further registration files.
    pub includes: Vec<String>,
}

/// A registration file declares one plug-in, or a list of them.
#[derive(Debug)]
pub enum PluginVariants {
    /// One plug-in.
    Single(RegistrationMetadata),
    /// Plug-ins and included files.
    Multi(PluginInfo),
}

impl PluginInfo {
    /// A file that declares `info` alone and includes nothing.
    pub fn from_single(info: RegistrationMetadata) -> (r: Self)
        ensures
            r.plugins@ == seq![info],
            r.includes@.len() == 0,
    {
        let mut plugins = Vec::new();
        plugins.push(info);
        PluginInfo { plugins, includes: Vec::new() }
    }

    /// The plug-ins and included files that `variants` declares.
    pub fn from_variants(variants: PluginVariants) -> (r: Self)
        ensures
            match variants {
                PluginVariants::Single(info) => r.plugins@ == seq![info] && r.includes@.len() == 0,
                PluginVariants::Multi(info) => r == info,
            },
    {
        match variants {
            PluginVariants::Single(info) => PluginInfo::from_single(info),
            PluginVariants::Multi(info) => info,
        }
    }
}

} // verus!
