use vstd::prelude::*;
use vstd::string::StringExecFns;
use crate::mapper::{chain, deterministic, lemma_chain_associative, Chain, Mapper};
use crate::node::Node;
use crate::protocol::PreservationProtocol;
use crate::scalar::Scalar;

verus! {

/// A named, protocol-tagged transformation from an `S` state to a `T` value,
/// carried out by its mapper `M`.
pub struct Handover<S, T, M> {
    pub id: String,
    pub protocol: PreservationProtocol,
    pub fidelity: Scalar,
    pub mapper: M,
    pub marker: core::marker::PhantomData<(S, T)>,
}

impl<S, T, M: Mapper<S, T>> Handover<S, T, M> {
    /// A handover with full fidelity.
    pub fn new(id: String, protocol: PreservationProtocol, mapper: M) -> (r: Handover<S, T, M>)
        ensures
            r.id == id,
            r.protocol == protocol,
            r.fidelity == Scalar::spec_one(),
            r.mapper == mapper,
    {
        Handover {
            id,
            protocol,
            fidelity: Scalar::one(),
            mapper,
            marker: core::marker::PhantomData,
        }
    }

    /// Applies the mapper, once, to the node's current state.
    pub fn execute(&self, source: &Node<S>) -> (r: T)
        requires
            self.mapper.accepts(&source.current_state),
        ensures
            self.mapper.yields(&source.current_state, r),
    {
        self.mapper.apply(&source.current_state)
    }
}

/// The id of a composed handover: the two ids joined by an underscore.
pub open spec fn composed_id(first: Seq<char>, second: Seq<char>) -> Seq<char> {
    first + seq!['_'] + second
}

/// The handover that runs `h1`, then `h2` on its result. Both are consumed.
/// The result is always `Transmutative`, with full fidelity whatever the
/// fidelities of the two.
pub fn compose_handovers<A, B, C, F: Mapper<A, B>, G: Mapper<B, C>>(
    h1: Handover<A, B, F>,
    h2: Handover<B, C, G>,
) -> (r: Handover<A, C, Chain<F, G, B>>)
    ensures
        r.id@ == composed_id(h1.id@, h2.id@),
        r.protocol == PreservationProtocol::Transmutative,
        r.fidelity == Scalar::spec_one(),
        r.mapper == chain::<F, G, B>(h1.mapper, h2.mapper),
{
    let id = h1.id.concat("_").concat(h2.id.as_str());
    assert(id@ =~= composed_id(h1.id@, h2.id@)) by {
        reveal_strlit("_");
    }
    let mapper = Chain { first: h1.mapper, second: h2.mapper, link: core::marker::PhantomData };
    Handover::new(id, PreservationProtocol::Transmutative, mapper)
}

/// Composition is associative in what execution returns: on any node,
/// `compose(compose(h1, h2), h3)` and `compose(h1, compose(h2, h3))` can be
/// executed on the same states and may return the same values; where all
/// three mappers are deterministic, any two such results are equal.
pub proof fn lemma_compose_associative<
    A,
    B,
    C,
    D,
    F: Mapper<A, B>,
    G: Mapper<B, C>,
    H: Mapper<C, D>,
>(h1: Handover<A, B, F>, h2: Handover<B, C, G>, h3: Handover<C, D, H>, n: Node<A>, d: D, e: D)
    ensures
        chain::<Chain<F, G, B>, H, C>(chain(h1.mapper, h2.mapper), h3.mapper).accepts(&n.current_state)
            == chain::<F, Chain<G, H, C>, B>(h1.mapper, chain(h2.mapper, h3.mapper)).accepts(&n.current_state),
        chain::<Chain<F, G, B>, H, C>(chain(h1.mapper, h2.mapper), h3.mapper).yields(&n.current_state, d)
            == chain::<F, Chain<G, H, C>, B>(h1.mapper, chain(h2.mapper, h3.mapper)).yields(&n.current_state, d),
        deterministic(h1.mapper) && deterministic(h2.mapper) && deterministic(h3.mapper)
            && chain::<Chain<F, G, B>, H, C>(chain(h1.mapper, h2.mapper), h3.mapper).yields(&n.current_state, d)
            && chain::<F, Chain<G, H, C>, B>(h1.mapper, chain(h2.mapper, h3.mapper)).yields(&n.current_state, e)
            ==> d == e,
{
    let (f, g, h) = (h1.mapper, h2.mapper, h3.mapper);
    let a = n.current_state;
    lemma_chain_associative(f, g, h, a, d);
    lemma_chain_associative(f, g, h, a, e);
    let left = chain::<Chain<F, G, B>, H, C>(chain(f, g), h);
    if deterministic(f) && deterministic(g) && deterministic(h) && left.yields(&a, d) && left.yields(&a, e) {
        let c1 = choose|c: C| #[trigger] left.first.yields(&a, c) && h.yields(&c, d);
        let b1 = choose|b: B| #[trigger] f.yields(&a, b) && g.yields(&b, c1);
        let c2 = choose|c: C| #[trigger] left.first.yields(&a, c) && h.yields(&c, e);
        let b2 = choose|b: B| #[trigger] f.yields(&a, b) && g.yields(&b, c2);
        assert(b1 == b2);
        assert(c1 == c2);
    }
}

} // verus!
