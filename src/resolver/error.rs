//! Errors of resolvers.
use vstd::prelude::*;

use crate::text::push_text;

verus! {

/// Errors of [`crate::Resolver`].
#[derive(Clone, Debug)]
pub enum ResolverError {
    /// The asset could not be opened; the reason is given.
    OpenAssetError(String),
    /// The modification time of the asset could not be had.
    AssetMtimeError,
    /// A layer cannot be written to the path; the path and the reason.
    CannotWriteLayerToPath(String, String),
    /// No new layer can be made with the identifier; the identifier and
    /// the reason.
    CannotCreateNewLayerWithIdentifier(String, String),
}

/// The message of a resolver error.
pub open spec fn resolver_error_message(e: ResolverError) -> Seq<char> {
    match e {
        ResolverError::OpenAssetError(s) => "failed to open asset: "@ + s@,
        ResolverError::AssetMtimeError => "failed to get asset's modified time"@,
        ResolverError::CannotWriteLayerToPath(path, reason) => "cannot write layer to path `"@
            + path@ + "`: "@ + reason@,
        ResolverError::CannotCreateNewLayerWithIdentifier(identifier, reason) =>
            "cannot create new layer with identifier `"@ + identifier@ + "`: "@ + reason@,
    }
}

impl ResolverError {
    /// The message of this error, for people to read.
    pub fn to_string(&self) -> (r: String)
        ensures
            r@ == resolver_error_message(*self),
    {
        let mut r = String::new();
        match self {
            ResolverError::OpenAssetError(s) => {
                push_text(&mut r, "failed to open asset: ");
                push_text(&mut r, s.as_str());
            },
            ResolverError::AssetMtimeError => {
                push_text(&mut r, "failed to get asset's modified time");
            },
            ResolverError::CannotWriteLayerToPath(path, reason) => {
                push_text(&mut r, "cannot write layer to path `");
                push_text(&mut r, path.as_str());
                push_text(&mut r, "`: ");
                push_text(&mut r, reason.as_str());
            },
            ResolverError::CannotCreateNewLayerWithIdentifier(identifier, reason) => {
                push_text(&mut r, "cannot create new layer with identifier `");
                push_text(&mut r, identifier.as_str());
                push_text(&mut r, "`: ");
                push_text(&mut r, reason.as_str());
            },
        }
        r
    }
}

} // verus!
