//! What a plug-in declares when it registers.
use vstd::prelude::*;

use super::plugin_type::PluginType;
use crate::text::{char_vec, push_text};

verus! {

/// The JSON values of `serde_json`, held as they are.
#[verifier::external_type_specification]
#[verifier::external_body]
pub struct ExJsonValue(serde_json::Value);

/// The path where the root path of a plug-in is not given: the current
/// directory.
pub fn default_path() -> (r: String)
    ensures
        r@ == "."@,
{
    let mut r = String::new();
    push_text(&mut r, ".");
    r
}

/// `sub` taken relative to `root`: `root` when `sub` is empty, `sub` when
/// it is absolute, else the two joined by one `/` (none is added after an
/// empty root or one that already ends with `/`).
pub open spec fn joined_path(root: Seq<char>, sub: Seq<char>) -> Seq<char> {
    if sub.len() == 0 {
        root
    } else if sub[0] == '/' {
        sub
    } else if root.len() == 0 || root.last() == '/' {
        root + sub
    } else {
        root + seq!['/'] + sub
    }
}

/// Joins `sub_path_name` to `root_path_name`, as [`joined_path`] says.
pub fn append_to_root_path(root_path_name: &str, sub_path_name: &str) -> (r: String)
    ensures
        r@ == joined_path(root_path_name@, sub_path_name@),
{
    let root = char_vec(root_path_name);
    let sub = char_vec(sub_path_name);
    let mut r = String::new();
    if sub.len() == 0 {
        push_text(&mut r, root_path_name);
    } else if sub[0] == '/' {
        push_text(&mut r, sub_path_name);
    } else if root.len() == 0 || root[root.len() - 1] == '/' {
        push_text(&mut r, root_path_name);
        push_text(&mut r, sub_path_name);
    } else {
        push_text(&mut r, root_path_name);
        push_text(&mut r, "/");
        push_text(&mut r, sub_path_name);
        proof {
            reveal_strlit("/");
        }
    }
    r
}

/// The registration of one plug-in.
#[derive(Debug)]
pub struct RegistrationMetadata {
    /// The kind of the plug-in.
    pub plugin_type: PluginType,
    /// The name of the plug-in.
    pub name: String,
    /// The root path of the plug-in.
    pub plugin_path: String,
    /// The path of its library, relative to the root path.
    pub library_path: String,
    /// The path of its resources, relative to the root path.
    pub resource_path: String,
    /// Free-form information that the plug-in declares.
    pub info: serde_json::Value,
}

impl RegistrationMetadata {
    /// The path of the plug-in's library, joined to its root path.
    pub fn library_path(&self) -> (r: String)
        ensures
            r@ == joined_path(self.plugin_path@, self.library_path@),
    {
        append_to_root_path(self.plugin_path.as_str(), self.library_path.as_str())
    }

    /// The path of the plug-in's resources, joined to its root path.
    pub fn resource_path(&self) -> (r: String)
        ensures
            r@ == joined_path(self.plugin_path@, self.resource_path@),
    {
        append_to_root_path(self.plugin_path.as_str(), self.resource_path.as_str())
    }
}

} // verus!
