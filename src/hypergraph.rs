use vstd::prelude::*;
use crate::node::Node;

verus! {

/// A named collection of nodes, keyed by their ids.
pub struct Hypergraph<T> {
    name: String,
    nodes: Vec<Node<T>>,
    contents: Ghost<Map<Seq<char>, Node<T>>>,
}

impl<T> Hypergraph<T> {
    /// The nodes, each under its id.
    pub closed spec fn view(&self) -> Map<Seq<char>, Node<T>> {
        self.contents@
    }

    /// The collection's name.
    pub closed spec fn spec_name(&self) -> Seq<char> {
        self.name@
    }

    pub fn name(&self) -> (r: &str)
        ensures
            r@ == self.spec_name(),
    {
        self.name.as_str()
    }

    /// Each stored node is found under its own id, ids are not repeated, and
    /// each id of the map belongs to a stored node.
    pub closed spec fn wf(&self) -> bool {
        &&& forall|i: int|
            0 <= i < self.nodes@.len() ==> #[trigger] self.contents@.contains_key(self.nodes@[i].id@)
                && self.contents@[self.nodes@[i].id@] == self.nodes@[i]
        &&& forall|i: int, j: int|
            0 <= i < self.nodes@.len() && 0 <= j < self.nodes@.len() && i != j
                ==> #[trigger] self.nodes@[i].id@ != #[trigger] self.nodes@[j].id@
        &&& forall|k: Seq<char>|
            #[trigger] self.contents@.contains_key(k) ==> exists|i: int|
                0 <= i < self.nodes@.len() && #[trigger] self.nodes@[i].id@ == k
    }

    /// An empty collection with the given name.
    pub fn new(name: &str) -> (r: Hypergraph<T>)
        ensures
            r.wf(),
            r.spec_name() == name@,
            r@ == Map::<Seq<char>, Node<T>>::empty(),
    {
        Hypergraph { name: name.to_owned(), nodes: Vec::new(), contents: Ghost(Map::empty()) }
    }

    /// Stores `node` under its id, in place of any node stored there before.
    pub fn add_node(&mut self, node: Node<T>)
        requires
            old(self).wf(),
        ensures
            final(self).wf(),
            final(self).spec_name() == old(self).spec_name(),
            final(self)@ == old(self)@.insert(node.id@, node),
    {
        let ghost key = node.id@;
        let ghost updated = self.contents@.insert(key, node);
        let mut i: usize = 0;
        while i < self.nodes.len()
            invariant
                0 <= i <= self.nodes@.len(),
                self.wf(),
                self.name == old(self).name,
                self.contents == old(self).contents,
                self.nodes@ == old(self).nodes@,
                updated == self.contents@.insert(key, node),
                key == node.id@,
                forall|j: int| 0 <= j < i ==> #[trigger] self.nodes@[j].id@ != key,
            decreases self.nodes@.len() - i,
        {
            if self.nodes[i].id == node.id {
                let ghost before = self.nodes@;
                self.nodes.set(i, node);
                self.contents = Ghost(updated);
                assert forall|j: int| 0 <= j < before.len() && j != i implies #[trigger] before[j].id@ != key by {
                    assert(before[i as int].id@ == key);
                }
                assert forall|k: Seq<char>| #[trigger] updated.contains_key(k) implies exists|j: int|
                    0 <= j < self.nodes@.len() && #[trigger] self.nodes@[j].id@ == k by {
                    if k != key {
                        let j = choose|j: int| 0 <= j < before.len() && #[trigger] before[j].id@ == k;
                        assert(self.nodes@[j].id@ == k);
                    } else {
                        assert(self.nodes@[i as int].id@ == k);
                    }
                }
                return;
            }
            i = i + 1;
        }
        let ghost before = self.nodes@;
        self.nodes.push(node);
        self.contents = Ghost(updated);
        assert forall|k: Seq<char>| #[trigger] updated.contains_key(k) implies exists|j: int|
            0 <= j < self.nodes@.len() && #[trigger] self.nodes@[j].id@ == k by {
            if k != key {
                let j = choose|j: int| 0 <= j < before.len() && #[trigger] before[j].id@ == k;
                assert(self.nodes@[j].id@ == k);
            } else {
                assert(self.nodes@[before.len() as int].id@ == k);
            }
        }
    }

    /// The node stored under `id`, if any.
    pub fn get(&self, id: &str) -> (r: Option<&Node<T>>)
        requires
            self.wf(),
        ensures
            match r {
                Some(n) => self@.contains_key(id@) && *n == self@[id@],
                None => !self@.contains_key(id@),
            },
    {
        let key = id.to_owned();
        let mut i: usize = 0;
        while i < self.nodes.len()
            invariant
                0 <= i <= self.nodes@.len(),
                self.wf(),
                key@ == id@,
                forall|j: int| 0 <= j < i ==> #[trigger] self.nodes@[j].id@ != key@,
            decreases self.nodes@.len() - i,
        {
            if self.nodes[i].id == key {
                return Some(&self.nodes[i]);
            }
            i = i + 1;
        }
        None
    }
}

/// Storing two nodes with one id leaves only the second under that id: the
/// collection is the same as if the first had never been stored.
pub proof fn lemma_last_write_wins<T>(m: Map<Seq<char>, Node<T>>, first: Node<T>, second: Node<T>)
    requires
        first.id@ == second.id@,
    ensures
        m.insert(first.id@, first).insert(second.id@, second) == m.insert(second.id@, second),
        m.insert(first.id@, first).insert(second.id@, second)[second.id@] == second,
{
    assert(m.insert(first.id@, first).insert(second.id@, second) =~= m.insert(second.id@, second));
}

} // verus!
