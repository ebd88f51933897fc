//! What is known of a resolved asset.
use vstd::prelude::*;

verus! {

/// Information on a resolved asset.
#[derive(Clone, Debug, PartialEq, Eq, PartialOrd, Ord)]
pub struct AssetInfo {
    /// The version of the resolved asset, if any.
    version: Option<String>,
    /// The name of the asset, if any.
    asset_name: Option<String>,
    /// The repository path of the resolved asset.
    repo_path: String,
}

} // verus!
