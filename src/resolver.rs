//! The interface of asset resolvers.
//!
//! A resolver maps asset paths to resolved paths and opens assets; this
//! crate states what it offers and leaves the work to implementations.
use vstd::prelude::*;

use crate::asset::Asset;
use crate::asset_info::AssetInfo;
use crate::resolved_path::ResolvedPath;
use crate::resolver_context::client_context::ClientContext;
use crate::resolver_context::resolver_context_v2::ResolverContext;
use crate::writable_asset::WritableAsset;

pub mod error;
pub mod wrapper;

pub use error::ResolverError;

verus! {

/// How an asset opened for writing treats its present contents.
#[derive(Clone, Copy, Debug, PartialEq, Eq, Structural)]
pub enum WriteMode {
    /// Keep the present contents and write over them in place.
    Update,
    /// Replace the present contents entirely.
    Replace,
}

/// An asset resolver.
pub trait Resolver {
    /// The client contexts that the contexts of this resolver hold.
    type Context: ClientContext;

    /// Data handed over when a context is bound or unbound.
    type BindingData;

    /// Data handed over when a cache scope begins or ends.
    type CacheScopeData;

    /// Assets opened for reading.
    type OpenedAsset: Asset;

    /// Assets opened for writing.
    type OpenedWritableAsset: WritableAsset;

    /// The identifier of `asset_path`, anchored to `anchor_asset_path` if
    /// one is given.
    fn create_identifier(&self, asset_path: &str, anchor_asset_path: Option<&ResolvedPath>) -> &str;

    /// The identifier of a new asset at `asset_path`, anchored to
    /// `anchor_asset_path`.
    fn create_identifier_for_new_asset(
        &self,
        asset_path: &str,
        anchor_asset_path: &ResolvedPath,
    ) -> &str;

    /// The resolved path of an existing asset; empty when there is none.
    fn resolve(&self, asset_path: &str) -> ResolvedPath;

    /// The resolved path where a new asset would be written.
    fn resolve_for_new_asset(&self, asset_path: &str) -> ResolvedPath;

    /// Binds `context` for the resolutions that follow.
    fn bind_context(
        &mut self,
        context: &ResolverContext<Self::Context>,
        binding_data: &Self::BindingData,
    );

    /// Unbinds a context that was bound.
    fn unbind_context(
        &mut self,
        context: &ResolverContext<Self::Context>,
        binding_data: &Self::BindingData,
    );

    /// The context to use when no other is bound.
    fn create_default_context(&self) -> ResolverContext<Self::Context>;

    /// The default context for the asset at `asset_path`.
    fn create_default_context_for_asset(&self, asset_path: &str) -> ResolverContext<Self::Context>;

    /// A context made from a string.
    fn create_context_from_string(&self, context_str: &str) -> ResolverContext<Self::Context>;

    /// A context made from a string by the resolver of `uri_scheme`.
    fn create_context_from_uri_and_string(
        &self,
        uri_scheme: &str,
        context_str: &str,
    ) -> ResolverContext<Self::Context>;

    /// A context that combines the contexts made from each pair of URI
    /// scheme and string.
    fn create_context_from_strings(&self, context_strings: &[(&str, &str)]) -> ResolverContext<
        Self::Context,
    >;

    /// Refreshes the state that depends on `context`.
    fn refresh_context(&mut self, context: &ResolverContext<Self::Context>);

    /// The context bound now.
    fn get_current_context(&self) -> &ResolverContext<Self::Context>;

    /// Whether `asset_path` resolves differently under different contexts.
    fn is_context_dependent_path(&self, asset_path: &str) -> bool;

    /// The file extension of `asset_path`.
    fn get_extension(&self, asset_path: &str) -> &str;

    /// What is known of the asset at `resolved_path`.
    fn get_asset_info(&self, asset_path: &str, resolved_path: &ResolvedPath) -> &AssetInfo;

    /// The time the asset was last modified.
    fn get_modification_timestamp(&self, asset_path: &str, resolved_path: &str) -> Result<
        i64,
        ResolverError,
    >;

    /// Opens the asset at `resolved_path` for reading.
    fn open_asset(&self, resolved_path: &ResolvedPath) -> Result<
        &Self::OpenedAsset,
        ResolverError,
    >;

    /// Opens the asset at `resolved_path` for writing.
    fn open_asset_for_write(
        &self,
        resolved_path: &ResolvedPath,
        write_mode: WriteMode,
    ) -> Self::OpenedWritableAsset;

    /// Begins a scope in which resolutions may be cached.
    fn begin_cache_scope(&mut self, cache_scope_data: Option<&Self::CacheScopeData>);

    /// Ends a cache scope.
    fn end_cache_scope(&mut self, cache_scope_data: Option<&Self::CacheScopeData>);

    /// Deprecated; does nothing.
    fn configure_resolver_for_asset(&mut self, _path: &str) {
    }

    /// Deprecated; use [`Resolver::create_identifier`].
    fn anchor_relative_path(&self, anchor_path: &str, path: &str) -> &str;

    /// Deprecated.
    fn is_relative_path(&self, path: &str) -> bool;

    /// Deprecated; by default no path is a search path.
    fn is_search_path(&self, _path: &str) -> bool {
        false
    }

    /// Deprecated.
    fn is_repository_path(&self, path: &str) -> bool;

    /// Deprecated; use [`Resolver::open_asset`]. By default it succeeds.
    fn fetch_to_local_resolved_path(&self, _path: &str, _resolved_path: &str) -> bool {
        true
    }

    /// Deprecated; use [`Resolver::open_asset_for_write`].
    fn create_path_for_layer(&self, path: &str) -> Result<(), ResolverError>;

    /// Deprecated; use [`Resolver::open_asset_for_write`]. By default it allows.
    fn can_write_layer_to_path(&self, _path: &str) -> Result<(), ResolverError> {
        Ok(())
    }

    /// Deprecated; use [`Resolver::resolve_for_new_asset`]. By default it allows.
    fn can_create_new_layer_with_identifier(&self, _identifier: &str) -> Result<
        (),
        ResolverError,
    > {
        Ok(())
    }
}

} // verus!
