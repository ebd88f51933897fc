//! Asset resolution: the paths of assets inside packages, the contexts
//! that clients hand to resolvers, and the interfaces of resolvers and of
//! the assets they open.
pub mod asset;
pub mod asset_info;
pub mod package_utils;
pub mod plugin;
pub mod resolved_path;
pub mod resolver;
pub mod resolver_context;
mod text;
pub mod writable_asset;

pub use asset::{Asset, AssetError};
pub use asset_info::AssetInfo;
pub use package_utils::{
    find_matching_opening_delimiter, find_outermost_closing_delimiter, is_package_relative_path,
    split_package_relative_path_outer, unescape_delimiters,
};
pub use plugin::info::{PluginInfo, PluginVariants};
pub use plugin::plugin::Plugin;
pub use plugin::plugin_type::PluginType;
pub use plugin::registration_metadata::RegistrationMetadata;
pub use resolved_path::ResolvedPath;
pub use resolver::{Resolver, ResolverError, WriteMode};
pub use resolver_context::client_context::{
    ClientContext, ClientContextClone, ClientContextCmp, ContextType,
};
pub use resolver_context::resolver_context_v2::ResolverContext;
pub use writable_asset::{WritableAsset, WritableAssetError};
