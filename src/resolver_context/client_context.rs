//! What the resolver asks of a client context.
//!
//! A deployment gathers its context types under one type, most often an
//! enum with one variant for each context type, and implements
//! [`ClientContext`] for it. Each context type names itself with a token
//! through [`ContextType`]; a value of the gathered type tells which token
//! it holds. Equality and order only relate values that hold the same
//! context type.
use core::cmp::Ordering;
use vstd::prelude::*;

verus! {

/// Comparison of client contexts, by context type first.
pub trait ClientContextCmp {
    /// The token of the context type that this value holds.
    spec fn type_token(&self) -> u64;

    /// The two payloads, of one context type, are equal.
    spec fn same_payload(&self, other: &Self) -> bool;

    /// The order of two payloads of one context type, where they have one.
    spec fn payload_order(&self, other: &Self) -> Option<Ordering>;

    /// The token of the context type that this value holds.
    fn context_type_token(&self) -> (r: u64)
        ensures
            r == self.type_token(),
    ;

    /// Equal: the same context type, with equal payloads.
    fn eq_box(&self, other: &Self) -> (r: bool)
        ensures
            r == (self.type_token() == other.type_token() && self.same_payload(other)),
    ;

    /// The order of the payloads; none between different context types.
    fn partial_cmp_box(&self, other: &Self) -> (r: Option<Ordering>)
        ensures
            r == (if self.type_token() == other.type_token() {
                self.payload_order(other)
            } else {
                None
            }),
    ;
}

/// Copying of client contexts.
pub trait ClientContextClone: ClientContextCmp + Sized {
    /// An independent copy, of the same context type and with an equal
    /// payload.
    fn clone_box(&self) -> (r: Self)
        ensures
            r.type_token() == self.type_token(),
            r.same_payload(self),
    ;
}

/// A client context: comparable, copyable, and printable for diagnostics.
pub trait ClientContext: ClientContextClone + ClientContextCmp + core::fmt::Debug {

}

/// A context type, named by its token.
///
/// An implementer gives each context type a token of its own: two context
/// types with one token cannot be told apart, and [`ClientContextCmp`]
/// compares their values as values of one type.
pub trait ContextType {
    /// The token of this context type.
    spec fn token() -> u64;

    /// The token of this context type.
    fn type_token() -> (r: u64)
        ensures
            r == Self::token(),
    ;
}

/// Contexts that are equal, place by place.
pub open spec fn contexts_equal<C: ClientContextCmp>(a: Seq<C>, b: Seq<C>) -> bool {
    &&& a.len() == b.len()
    &&& forall|i: int|
        0 <= i < a.len() ==> (#[trigger] a[i]).type_token() == b[i].type_token() && a[i].same_payload(
            &b[i],
        )
}

/// The order of two single contexts.
pub open spec fn context_order<C: ClientContextCmp>(a: C, b: C) -> Option<Ordering> {
    if a.type_token() == b.type_token() {
        a.payload_order(&b)
    } else {
        None
    }
}

/// Lexicographic order of two sequences of contexts: the first place where
/// they are not equal decides; a proper prefix comes first.
pub open spec fn contexts_order<C: ClientContextCmp>(a: Seq<C>, b: Seq<C>) -> Option<Ordering>
    decreases a.len(),
{
    if a.len() == 0 {
        if b.len() == 0 {
            Some(Ordering::Equal)
        } else {
            Some(Ordering::Less)
        }
    } else if b.len() == 0 {
        Some(Ordering::Greater)
    } else {
        match context_order(a[0], b[0]) {
            Some(Ordering::Equal) => contexts_order(a.drop_first(), b.drop_first()),
            other => other,
        }
    }
}

/// The place of the first context of type `token` in `s`.
pub open spec fn first_of_type<C: ClientContextCmp>(s: Seq<C>, token: u64, i: int) -> bool {
    &&& 0 <= i < s.len()
    &&& s[i].type_token() == token
    &&& forall|j: int| 0 <= j < i ==> (#[trigger] s[j]).type_token() != token
}

/// No context of type `token` in `s`.
pub open spec fn has_no_type<C: ClientContextCmp>(s: Seq<C>, token: u64) -> bool {
    forall|i: int| 0 <= i < s.len() ==> (#[trigger] s[i]).type_token() != token
}

} // verus!
