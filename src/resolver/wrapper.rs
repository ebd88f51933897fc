//! The resolver that owns the primary resolver and forwards to it.
use vstd::prelude::*;

use super::Resolver;

verus! {

/// Owns the primary resolver and forwards calls to it, so that behaviour
/// can be laid over that of the primary resolver.
pub struct ResolverWrapper<R: Resolver> {
    resolver: R,
    max_uri_scheme_length: usize,
}

impl<R: Resolver> ResolverWrapper<R> {
    /// The resolver that calls are forwarded to.
    pub closed spec fn primary(&self) -> R {
        self.resolver
    }

    /// A wrapper around `resolver`; URI schemes may be up to
    /// `max_uri_scheme_length` characters long.
    pub fn new(resolver: R, max_uri_scheme_length: usize) -> (r: Self)
        ensures
            r.primary() == resolver,
    {
        ResolverWrapper { resolver, max_uri_scheme_length }
    }

    /// The primary resolver.
    pub fn get_primary_resolver(&self) -> (r: &R)
        ensures
            *r == self.primary(),
    {
        &self.resolver
    }
}

} // verus!
