use std::cmp::Ordering;

use usd_ar::resolver_context::resolver_context_v1;
use usd_ar::{ClientContext, ClientContextClone, ClientContextCmp, ContextType, ResolverContext};

#[derive(Clone, Debug, PartialEq, PartialOrd)]
struct Context1 {
    id: usize,
}

#[derive(Clone, Debug, PartialEq, PartialOrd)]
struct Context2 {
    data: usize,
}

#[derive(Clone, Debug, PartialEq)]
enum Ctx {
    One(Context1),
    Two(Context2),
}

impl ClientContextCmp for Ctx {
    fn type_token(&self) -> u64 {
        match self {
            Ctx::One(_) => 1,
            Ctx::Two(_) => 2,
        }
    }

    fn same_payload(&self, other: &Self) -> bool {
        self == other
    }

    fn payload_order(&self, other: &Self) -> Option<Ordering> {
        match (self, other) {
            (Ctx::One(a), Ctx::One(b)) => a.partial_cmp(b),
            (Ctx::Two(a), Ctx::Two(b)) => a.partial_cmp(b),
            _ => None,
        }
    }

    fn context_type_token(&self) -> u64 {
        self.type_token()
    }

    fn eq_box(&self, other: &Self) -> bool {
        self.same_payload(other)
    }

    fn partial_cmp_box(&self, other: &Self) -> Option<Ordering> {
        self.payload_order(other)
    }
}

impl ClientContextClone for Ctx {
    fn clone_box(&self) -> Self {
        self.clone()
    }
}

impl ClientContext for Ctx {}

impl ContextType for Context1 {
    fn token() -> u64 {
        1
    }

    fn type_token() -> u64 {
        Self::token()
    }
}

impl ContextType for Context2 {
    fn token() -> u64 {
        2
    }

    fn type_token() -> u64 {
        Self::token()
    }
}

fn one(id: usize) -> Ctx {
    Ctx::One(Context1 { id })
}

fn two(data: usize) -> Ctx {
    Ctx::Two(Context2 { data })
}

#[test]
fn push_then_get_by_type() {
    let mut ctx = ResolverContext::new();
    ctx.push(one(1));
    assert!(ctx.get::<Context1>().is_some());
    assert!(ctx.get::<Context2>().is_none());
    assert_eq!(ctx.get::<Context1>(), Some(&one(1)));
}

#[test]
fn get_finds_the_first_of_a_type() {
    let mut ctx = ResolverContext::new();
    ctx.push(two(5));
    ctx.push(one(1));
    ctx.push(one(2));
    assert_eq!(ctx.get::<Context1>(), Some(&one(1)));
    assert_eq!(ctx.get::<Context2>(), Some(&two(5)));
}

#[test]
fn new_context_is_empty() {
    let mut ctx: ResolverContext<Ctx> = ResolverContext::new();
    assert!(ctx.is_empty());
    assert!(ctx.get::<Context1>().is_none());
    ctx.push(one(1));
    assert!(!ctx.is_empty());
}

#[test]
fn pushing_into_a_clone_leaves_the_original() {
    let mut ctx = ResolverContext::new();
    ctx.push(one(1));
    let mut copy = ctx.clone();
    copy.push(two(2));
    assert_eq!(ctx.into_contexts().len(), 1);
    assert_eq!(copy.into_contexts().len(), 2);
}

#[test]
fn clone_is_equal() {
    let mut ctx = ResolverContext::new();
    ctx.push(one(1));
    ctx.push(two(2));
    let copy = ctx.clone();
    assert!(ctx == copy);
}

#[test]
fn equality_sees_order() {
    let mut ab = ResolverContext::new();
    ab.push(one(1));
    ab.push(two(2));
    let mut ba = ResolverContext::new();
    ba.push(two(2));
    ba.push(one(1));
    assert!(ab != ba);
    assert_eq!(ab.partial_cmp(&ba), None);
}

#[test]
fn equality_compares_payloads() {
    let mut a = ResolverContext::new();
    a.push(one(1));
    let mut b = ResolverContext::new();
    b.push(one(2));
    assert!(a != b);
    let mut c = ResolverContext::new();
    c.push(one(1));
    c.push(one(1));
    assert!(a != c);
}

#[test]
fn order_is_lexicographic() {
    let mut a = ResolverContext::new();
    a.push(one(1));
    let mut b = ResolverContext::new();
    b.push(one(2));
    assert_eq!(a.partial_cmp(&b), Some(Ordering::Less));
    assert_eq!(b.partial_cmp(&a), Some(Ordering::Greater));
    let mut longer = ResolverContext::new();
    longer.push(one(1));
    longer.push(two(0));
    assert_eq!(a.partial_cmp(&longer), Some(Ordering::Less));
    assert_eq!(a.partial_cmp(&a.clone()), Some(Ordering::Equal));
}

#[test]
fn add_assign_appends_in_order() {
    let mut a = ResolverContext::new();
    a.push(one(1));
    let mut b = ResolverContext::new();
    b.push(two(2));
    b.push(one(3));
    a += b;
    let all: Vec<Ctx> = a.into_iter().collect();
    assert_eq!(all, vec![one(1), two(2), one(3)]);
}

#[test]
fn single_slot_context() {
    let ctx = resolver_context_v1::ResolverContext::new(one(1));
    assert!(ctx.get::<Context2>().is_none());
    assert!(ctx.get::<Context1>().is_some());
    assert!(!ctx.is_empty());
}

#[test]
fn single_slot_equality_and_order() {
    let a = resolver_context_v1::ResolverContext::new(one(1));
    let b = resolver_context_v1::ResolverContext::new(one(2));
    let c = resolver_context_v1::ResolverContext::new(two(1));
    assert!(a == a.clone());
    assert!(a != b);
    assert!(a != c);
    assert_eq!(a.partial_cmp(&b), Some(Ordering::Less));
    assert_eq!(a.partial_cmp(&c), None);
}
