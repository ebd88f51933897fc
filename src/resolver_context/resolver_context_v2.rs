//! A resolver context that holds a sequence of client contexts.
use core::cmp::Ordering;
use vstd::prelude::*;

use super::client_context::{
    ClientContext, ClientContextCmp, ContextType, contexts_equal, contexts_order, first_of_type,
    has_no_type,
};

verus! {

/// Client data handed to the resolver: client contexts in the order they
/// were pushed. One context of each context type is the intended use; a
/// second one of a type is kept, but [`ResolverContext::get`] finds the
/// first.
#[derive(Debug)]
pub struct ResolverContext<C> {
    contexts: Vec<C>,
}

impl<C> View for ResolverContext<C> {
    type V = Seq<C>;

    closed spec fn view(&self) -> Seq<C> {
        self.contexts@
    }
}

impl<C: ClientContext> ResolverContext<C> {
    /// An empty context.
    pub fn new() -> (r: Self)
        ensures
            r@ == Seq::<C>::empty(),
    {
        ResolverContext { contexts: Vec::new() }
    }

    /// Appends a client context after those already held.
    pub fn push(&mut self, context: C)
        ensures
            final(self)@ == old(self)@.push(context),
    {
        self.contexts.push(context);
    }

    /// The first client context of context type `T`, if one is held.
    pub fn get<T: ContextType>(&self) -> (r: Option<&C>)
        ensures
            match r {
                Some(c) => exists|i: int| first_of_type(self@, T::token(), i) && self@[i] == *c,
                None => has_no_type(self@, T::token()),
            },
    {
        let token = T::type_token();
        let mut i: usize = 0;
        while i < self.contexts.len()
            invariant
                i <= self@.len(),
                self@ == self.contexts@,
                forall|j: int| 0 <= j < i ==> (#[trigger] self@[j]).type_token() != token,
                token == T::token(),
            decreases self.contexts.len() - i,
        {
            if self.contexts[i].context_type_token() == token {
                assert(first_of_type(self@, token, i as int));
                return Some(&self.contexts[i]);
            }
            i = i + 1;
        }
        None
    }

    /// Whether no client context is held.
    pub fn is_empty(&self) -> (r: bool)
        ensures
            r == (self@.len() == 0),
    {
        self.contexts.len() == 0
    }

    /// Appends the client contexts of `other` after those of `self`, in
    /// their order.
    pub fn append(&mut self, other: Self)
        ensures
            final(self)@ == old(self)@ + other@,
    {
        let mut other = other;
        self.contexts.append(&mut other.contexts);
    }

    /// The client contexts, in order.
    pub fn into_contexts(self) -> (r: Vec<C>)
        ensures
            r@ == self@,
    {
        self.contexts
    }

    /// A copy that holds a copy of each client context.
    pub fn clone_contexts(&self) -> (r: Self)
        ensures
            contexts_equal(r@, self@),
    {
        let mut v: Vec<C> = Vec::new();
        let mut i: usize = 0;
        while i < self.contexts.len()
            invariant
                i <= self@.len(),
                self@ == self.contexts@,
                v@.len() == i,
                forall|j: int|
                    0 <= j < i ==> (#[trigger] v@[j]).type_token() == self@[j].type_token()
                        && v@[j].same_payload(&self@[j]),
            decreases self.contexts.len() - i,
        {
            let c = self.contexts[i].clone_box();
            v.push(c);
            i = i + 1;
        }
        ResolverContext { contexts: v }
    }

    /// Equal: the same number of client contexts, equal place by place.
    pub fn eq_contexts(&self, other: &Self) -> (r: bool)
        ensures
            r == contexts_equal(self@, other@),
    {
        if self.contexts.len() != other.contexts.len() {
            return false;
        }
        let mut i: usize = 0;
        while i < self.contexts.len()
            invariant
                i <= self@.len(),
                self@ == self.contexts@,
                other@ == other.contexts@,
                self@.len() == other@.len(),
                forall|j: int|
                    0 <= j < i ==> (#[trigger] self@[j]).type_token() == other@[j].type_token()
                        && self@[j].same_payload(&other@[j]),
            decreases self.contexts.len() - i,
        {
            if !self.contexts[i].eq_box(&other.contexts[i]) {
                return false;
            }
            i = i + 1;
        }
        true
    }

    /// Lexicographic order: the first place where the two differ decides,
    /// and a proper prefix comes first.
    pub fn partial_cmp_contexts(&self, other: &Self) -> (r: Option<Ordering>)
        ensures
            r == contexts_order(self@, other@),
    {
        let a = &self.contexts;
        let b = &other.contexts;
        let mut i: usize = 0;
        assert(a@.skip(0) == a@ && b@.skip(0) == b@);
        while i < a.len() && i < b.len()
            invariant
                i <= a@.len(),
                i <= b@.len(),
                a@ == self@,
                b@ == other@,
                contexts_order(a@.skip(i as int), b@.skip(i as int)) == contexts_order(self@, other@),
            decreases a.len() - i,
        {
            let o = a[i].partial_cmp_box(&b[i]);
            assert(a@.skip(i as int)[0] == a@[i as int]);
            assert(b@.skip(i as int)[0] == b@[i as int]);
            match o {
                Some(Ordering::Equal) => {},
                _ => {
                    return o;
                },
            }
            assert(a@.skip(i as int).drop_first() == a@.skip(i + 1));
            assert(b@.skip(i as int).drop_first() == b@.skip(i + 1));
            i = i + 1;
        }
        if i < a.len() {
            Some(Ordering::Greater)
        } else if i < b.len() {
            Some(Ordering::Less)
        } else {
            Some(Ordering::Equal)
        }
    }
}

impl<C: ClientContext> PartialEq for ResolverContext<C> {
    fn eq(&self, other: &Self) -> (r: bool) {
        self.eq_contexts(other)
    }
}

impl<C: ClientContext> vstd::std_specs::cmp::PartialEqSpecImpl for ResolverContext<C> {
    open spec fn obeys_eq_spec() -> bool {
        true
    }

    open spec fn eq_spec(&self, other: &Self) -> bool {
        contexts_equal(self@, other@)
    }
}

impl<C: ClientContext> Eq for ResolverContext<C> {

}

impl<C: ClientContext> PartialOrd for ResolverContext<C> {
    fn partial_cmp(&self, other: &Self) -> (r: Option<Ordering>) {
        self.partial_cmp_contexts(other)
    }
}

impl<C: ClientContext> vstd::std_specs::cmp::PartialOrdSpecImpl for ResolverContext<C> {
    open spec fn obeys_partial_cmp_spec() -> bool {
        true
    }

    open spec fn partial_cmp_spec(&self, other: &Self) -> Option<Ordering> {
        contexts_order(self@, other@)
    }
}

impl<C: ClientContext> Clone for ResolverContext<C> {
    fn clone(&self) -> Self {
        self.clone_contexts()
    }
}

impl<C: ClientContext> core::ops::AddAssign for ResolverContext<C> {
    fn add_assign(&mut self, rhs: Self) {
        self.append(rhs);
    }
}

impl<C: ClientContext> IntoIterator for ResolverContext<C> {
    type Item = C;

    type IntoIter = std::vec::IntoIter<C>;

    fn into_iter(self) -> Self::IntoIter {
        self.contexts.into_iter()
    }
}

/// A context made by pushing one client context of type `A` into an empty
/// context finds that client context as the one of type `A`, and none of
/// another type `B`.
pub proof fn lemma_push_then_get<C: ClientContextCmp, A: ContextType, B: ContextType>(a: C)
    requires
        a.type_token() == A::token(),
        A::token() != B::token(),
    ensures
        first_of_type(Seq::<C>::empty().push(a), A::token(), 0),
        Seq::<C>::empty().push(a)[0] == a,
        has_no_type(Seq::<C>::empty().push(a), B::token()),
{
}

/// Pushing into a copy leaves the original as it was: the copy grows by
/// one, and is then no longer equal to the original.
pub proof fn lemma_copy_then_push<C: ClientContextCmp>(original: Seq<C>, copy: Seq<C>, c: C)
    requires
        contexts_equal(copy, original),
    ensures
        copy.push(c).len() == original.len() + 1,
        !contexts_equal(copy.push(c), original),
{
}

/// Equality sees the order: two client contexts of different types, pushed
/// in the two orders, give contexts that are not equal.
pub proof fn lemma_equality_sees_order<C: ClientContextCmp>(a: C, b: C)
    requires
        a.type_token() != b.type_token(),
    ensures
        !contexts_equal(seq![a, b], seq![b, a]),
{
    assert(seq![a, b][0] == a);
    assert(seq![b, a][0] == b);
}

} // verus!
