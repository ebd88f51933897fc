//! A resolver context that holds at most one client context.
use core::cmp::Ordering;
use vstd::prelude::*;

use super::client_context::{ClientContext, ClientContextCmp, ContextType, context_order};

verus! {

/// Client data handed to the resolver: one client context, or none.
#[derive(Debug)]
pub struct ResolverContext<C> {
    context: Option<C>,
}

impl<C> View for ResolverContext<C> {
    type V = Option<C>;

    closed spec fn view(&self) -> Option<C> {
        self.context
    }
}

/// Equal: both empty, or both holding equal client contexts.
pub open spec fn slot_equal<C: ClientContextCmp>(a: Option<C>, b: Option<C>) -> bool {
    match (a, b) {
        (None, None) => true,
        (Some(x), Some(y)) => x.type_token() == y.type_token() && x.same_payload(&y),
        _ => false,
    }
}

/// Order: an empty context comes first; two held client contexts are
/// ordered as they order.
pub open spec fn slot_order<C: ClientContextCmp>(a: Option<C>, b: Option<C>) -> Option<Ordering> {
    match (a, b) {
        (None, None) => Some(Ordering::Equal),
        (None, Some(_)) => Some(Ordering::Less),
        (Some(_), None) => Some(Ordering::Greater),
        (Some(x), Some(y)) => context_order(x, y),
    }
}

impl<C: ClientContext> ResolverContext<C> {
    /// A context that holds `context`.
    pub fn new(context: C) -> (r: Self)
        ensures
            r@ == Some(context),
    {
        ResolverContext { context: Some(context) }
    }

    /// The client context, if one is held and it is of context type `T`.
    pub fn get<T: ContextType>(&self) -> (r: Option<&C>)
        ensures
            match r {
                Some(c) => self@ == Some(*c) && c.type_token() == T::token(),
                None => !(self@ matches Some(c) && c.type_token() == T::token()),
            },
    {
        match &self.context {
            Some(c) => {
                if c.context_type_token() == T::type_token() {
                    Some(c)
                } else {
                    None
                }
            },
            None => None,
        }
    }

    /// Whether no client context is held.
    pub fn is_empty(&self) -> (r: bool)
        ensures
            r == (self@ is None),
    {
        self.context.is_none()
    }

    /// A copy that holds a copy of the client context.
    pub fn clone_context(&self) -> (r: Self)
        ensures
            slot_equal(r@, self@),
    {
        match &self.context {
            Some(c) => ResolverContext { context: Some(c.clone_box()) },
            None => ResolverContext { context: None },
        }
    }

    /// Equal: both empty, or both holding equal client contexts.
    pub fn eq_context(&self, other: &Self) -> (r: bool)
        ensures
            r == slot_equal(self@, other@),
    {
        match (&self.context, &other.context) {
            (None, None) => true,
            (Some(a), Some(b)) => a.eq_box(b),
            _ => false,
        }
    }

    /// Order: an empty context comes first; two held client contexts are
    /// ordered as they order.
    pub fn partial_cmp_context(&self, other: &Self) -> (r: Option<Ordering>)
        ensures
            r == slot_order(self@, other@),
    {
        match (&self.context, &other.context) {
            (None, None) => Some(Ordering::Equal),
            (None, Some(_)) => Some(Ordering::Less),
            (Some(_), None) => Some(Ordering::Greater),
            (Some(a), Some(b)) => a.partial_cmp_box(b),
        }
    }
}

impl<C: ClientContext> PartialEq for ResolverContext<C> {
    fn eq(&self, other: &Self) -> (r: bool) {
        self.eq_context(other)
    }
}

impl<C: ClientContext> vstd::std_specs::cmp::PartialEqSpecImpl for ResolverContext<C> {
    open spec fn obeys_eq_spec() -> bool {
        true
    }

    open spec fn eq_spec(&self, other: &Self) -> bool {
        slot_equal(self@, other@)
    }
}

impl<C: ClientContext> Eq for ResolverContext<C> {

}

impl<C: ClientContext> PartialOrd for ResolverContext<C> {
    fn partial_cmp(&self, other: &Self) -> (r: Option<Ordering>) {
        self.partial_cmp_context(other)
    }
}

impl<C: ClientContext> vstd::std_specs::cmp::PartialOrdSpecImpl for ResolverContext<C> {
    open spec fn obeys_partial_cmp_spec() -> bool {
        true
    }

    open spec fn partial_cmp_spec(&self, other: &Self) -> Option<Ordering> {
        slot_order(self@, other@)
    }
}

impl<C: ClientContext> Clone for ResolverContext<C> {
    fn clone(&self) -> Self {
        self.clone_context()
    }
}

} // verus!
