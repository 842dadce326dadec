use vstd::prelude::*;
use crate::scalar::Scalar;

verus! {

/// A named entity holding a state of type `T` and a coherence measure.
#[derive(Clone)]
pub struct Node<T> {
    pub id: String,
    pub state_space: String,
    pub current_state: T,
    pub local_coherence: Scalar,
}

impl<T> Node<T> {
    /// A node with the given state and full coherence.
    pub fn new(id: String, state_space: &str, initial_state: T) -> (r: Node<T>)
        ensures
            r.id == id,
            r.state_space@ == state_space@,
            r.current_state == initial_state,
            r.local_coherence == Scalar::spec_one(),
    {
        Node {
            id,
            state_space: state_space.to_owned(),
            current_state: initial_state,
            local_coherence: Scalar::one(),
        }
    }
}

} // verus!
