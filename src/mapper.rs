use vstd::prelude::*;

verus! {

/// A capability that maps a reference to an `S` to an owned `T`.
///
/// `accepts` says on which inputs it may be applied; `yields` relates an input
/// to each result that an application may return.
pub trait Mapper<S, T> {
    spec fn accepts(&self, s: &S) -> bool;

    spec fn yields(&self, s: &S, t: T) -> bool;

    fn apply(&self, s: &S) -> (t: T)
        requires
            self.accepts(s),
        ensures
            self.yields(s, t),
    ;
}

/// Every closure over `&S` is a mapper, with the closure's own contract.
impl<S, T, F: Fn(&S) -> T> Mapper<S, T> for F {
    open spec fn accepts(&self, s: &S) -> bool {
        call_requires(*self, (s,))
    }

    open spec fn yields(&self, s: &S, t: T) -> bool {
        call_ensures(*self, (s,), t)
    }

    fn apply(&self, s: &S) -> (t: T) {
        (self)(s)
    }
}

/// `first`, then `second` on the intermediate value of type `B`.
pub struct Chain<F, G, B> {
    pub first: F,
    pub second: G,
    pub link: core::marker::PhantomData<B>,
}

/// The chain of `f` then `g`.
pub open spec fn chain<F, G, B>(f: F, g: G) -> Chain<F, G, B> {
    Chain { first: f, second: g, link: core::marker::PhantomData }
}

impl<A, B, C, F: Mapper<A, B>, G: Mapper<B, C>> Mapper<A, C> for Chain<F, G, B> {
    open spec fn accepts(&self, a: &A) -> bool {
        &&& self.first.accepts(a)
        &&& forall|b: B| #[trigger] self.first.yields(a, b) ==> self.second.accepts(&b)
    }

    open spec fn yields(&self, a: &A, c: C) -> bool {
        exists|b: B| #[trigger] self.first.yields(a, b) && self.second.yields(&b, c)
    }

    fn apply(&self, a: &A) -> (c: C) {
        let b = self.first.apply(a);
        self.second.apply(&b)
    }
}

/// A mapper whose result is fixed by its input.
pub open spec fn deterministic<S, T, M: Mapper<S, T>>(m: M) -> bool {
    forall|s: S, t1: T, t2: T| #[trigger] m.yields(&s, t1) && #[trigger] m.yields(&s, t2) ==> t1 == t2
}

/// Chaining is associative: `(f then g) then h` and `f then (g then h)`
/// accept the same inputs and may return the same results.
pub proof fn lemma_chain_associative<A, B, C, D, F: Mapper<A, B>, G: Mapper<B, C>, H: Mapper<C, D>>(
    f: F,
    g: G,
    h: H,
    a: A,
    d: D,
)
    ensures
        chain::<Chain<F, G, B>, H, C>(chain(f, g), h).accepts(&a) == chain::<F, Chain<G, H, C>, B>(f, chain(g, h)).accepts(&a),
        chain::<Chain<F, G, B>, H, C>(chain(f, g), h).yields(&a, d) == chain::<F, Chain<G, H, C>, B>(f, chain(g, h)).yields(&a, d),
{
    let left = chain::<Chain<F, G, B>, H, C>(chain(f, g), h);
    let right = chain::<F, Chain<G, H, C>, B>(f, chain(g, h));
    if left.yields(&a, d) {
        let c = choose|c: C| #[trigger] left.first.yields(&a, c) && h.yields(&c, d);
        let b = choose|b: B| #[trigger] f.yields(&a, b) && g.yields(&b, c);
        assert(right.second.first.yields(&b, c));
        assert(right.second.yields(&b, d));
    }
    if right.yields(&a, d) {
        let b = choose|b: B| #[trigger] f.yields(&a, b) && right.second.yields(&b, d);
        let c = choose|c: C| #[trigger] g.yields(&b, c) && h.yields(&c, d);
        assert(left.first.first.yields(&a, b));
        assert(left.first.yields(&a, c));
    }
    if left.accepts(&a) {
        assert forall|b: B| #[trigger] f.yields(&a, b) implies right.second.accepts(&b) by {
            assert forall|c: C| #[trigger] g.yields(&b, c) implies h.accepts(&c) by {
                assert(left.first.yields(&a, c));
            }
        }
    }
    if right.accepts(&a) {
        assert forall|c: C| #[trigger] left.first.yields(&a, c) implies h.accepts(&c) by {
            let b = choose|b: B| #[trigger] f.yields(&a, b) && g.yields(&b, c);
            assert(right.second.accepts(&b));
        }
    }
}

} // verus!
