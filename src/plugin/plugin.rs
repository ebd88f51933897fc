//! A registered plug-in.
use vstd::prelude::*;

use super::plugin_type::PluginType;

verus! {

/// A plug-in, as the registry records it.
pub struct Plugin {
    name: String,
    path: String,
    resource_path: String,
    plug_info: serde_json::Value,
    plug_type: PluginType,
}

impl Plugin {
    /// The name.
    pub closed spec fn name_spec(&self) -> Seq<char> {
        self.name@
    }

    /// The file system path.
    pub closed spec fn path_spec(&self) -> Seq<char> {
        self.path@
    }

    /// The file system path of the resources.
    pub closed spec fn resource_path_spec(&self) -> Seq<char> {
        self.resource_path@
    }

    /// The kind.
    pub closed spec fn type_spec(&self) -> PluginType {
        self.plug_type
    }

    /// A plug-in with these name, paths, information and kind.
    pub fn new(
        path: &str,
        name: &str,
        resource_path: &str,
        plug_info: serde_json::Value,
        plug_type: PluginType,
    ) -> (r: Self)
        ensures
            r.path_spec() == path@,
            r.name_spec() == name@,
            r.resource_path_spec() == resource_path@,
            r.type_spec() == plug_type,
    {
        Plugin {
            name: name.to_owned(),
            path: path.to_owned(),
            resource_path: resource_path.to_owned(),
            plug_info,
            plug_type,
        }
    }

    /// Whether the plug-in holds resources only.
    pub fn is_resource(&self) -> (r: bool)
        ensures
            r == (self.type_spec() == PluginType::Resource),
    {
        self.plug_type == PluginType::Resource
    }

    /// The plug-in's name.
    pub fn get_name(&self) -> (r: &str)
        ensures
            r@ == self.name_spec(),
    {
        self.name.as_str()
    }

    /// The plug-in's file system path.
    pub fn get_path(&self) -> (r: &str)
        ensures
            r@ == self.path_spec(),
    {
        self.path.as_str()
    }

    /// The file system path of the plug-in's resources.
    pub fn get_resource_path(&self) -> (r: &str)
        ensures
            r@ == self.resource_path_spec(),
    {
        self.resource_path.as_str()
    }
}

} // verus!
