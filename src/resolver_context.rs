//! Resolver contexts: client data handed to the resolver, compared and
//! copied without the resolver knowing what it holds.
pub mod client_context;
pub mod resolver_context_v1;
pub mod resolver_context_v2;
