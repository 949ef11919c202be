//! A map from node identifiers to values.

use crate::node::NodeId;
use vstd::prelude::*;

verus! {

/// At most one value for each node.
pub struct NodeMap<V> {
    entries: Vec<(NodeId, V)>,
}

impl<V> View for NodeMap<V> {
    type V = Map<Seq<u8>, V>;

    closed spec fn view(&self) -> Map<Seq<u8>, V> {
        Map::new(
            |node: Seq<u8>| exists|i: int| self.holds_at(node, i),
            |node: Seq<u8>| self.entries@[choose|i: int| self.holds_at(node, i)].1,
        )
    }
}

impl<V> NodeMap<V> {
    /// The entry at `i` is the one of `node`.
    spec fn holds_at(&self, node: Seq<u8>, i: int) -> bool {
        0 <= i < self.entries@.len() && self.entries@[i].0@ == node
    }

    /// No node has two entries.
    pub closed spec fn wf(&self) -> bool {
        forall|i: int, j: int|
            0 <= i < j < self.entries@.len() ==> self.entries@[i].0@ != self.entries@[j].0@
    }

    proof fn lemma_entry(&self, i: int)
        requires
            self.wf(),
            0 <= i < self.entries@.len(),
        ensures
            self@.dom().contains(self.entries@[i].0@),
            self@[self.entries@[i].0@] == self.entries@[i].1,
    {
        assert(self.holds_at(self.entries@[i].0@, i));
    }

    /// The map that holds nothing.
    pub fn new() -> (map: Self)
        ensures
            map.wf(),
            map@ == Map::<Seq<u8>, V>::empty(),
    {
        let map = NodeMap { entries: Vec::new() };
        assert(map@ =~= Map::empty());
        map
    }

    fn position(&self, node: &NodeId) -> (found: Option<usize>)
        ensures
            found matches Some(i) ==> self.holds_at(node@, i as int),
            found is None ==> !self@.dom().contains(node@),
    {
        let mut i: usize = 0;
        while i < self.entries.len()
            invariant
                i <= self.entries@.len(),
                forall|j: int| 0 <= j < i ==> self.entries@[j].0@ != node@,
            decreases self.entries@.len() - i,
        {
            if self.entries[i].0.same(node) {
                return Some(i);
            }
            i += 1;
        }
        None
    }

    /// Whether there is a value for `node`.
    pub fn contains(&self, node: &NodeId) -> (r: bool)
        ensures
            r == self@.dom().contains(node@),
    {
        let found = self.position(node);
        match found {
            Some(i) => {
                assert(self.holds_at(node@, i as int));
                true
            },
            None => false,
        }
    }

    /// Whether the map holds nothing.
    pub fn is_empty(&self) -> (r: bool)
        requires
            self.wf(),
        ensures
            r == (self@ == Map::<Seq<u8>, V>::empty()),
    {
        let r = self.entries.len() == 0;
        proof {
            if r {
                assert(self@ =~= Map::empty());
            } else {
                self.lemma_entry(0);
            }
        }
        r
    }

    /// The value for `node`.
    pub fn get(&self, node: &NodeId) -> (value: Option<&V>)
        requires
            self.wf(),
        ensures
            value is Some <==> self@.dom().contains(node@),
            value matches Some(v) ==> *v == self@[node@],
    {
        match self.position(node) {
            Some(i) => {
                proof {
                    self.lemma_entry(i as int);
                }
                Some(&self.entries[i].1)
            },
            None => None,
        }
    }

    /// Takes the value for `node` out of the map.
    pub fn remove(&mut self, node: &NodeId) -> (value: Option<V>)
        requires
            old(self).wf(),
        ensures
            final(self).wf(),
            final(self)@ == old(self)@.remove(node@),
            value is Some <==> old(self)@.dom().contains(node@),
            value matches Some(v) ==> v == old(self)@[node@],
    {
        match self.position(node) {
            Some(i) => {
                let ghost before = *self;
                proof {
                    before.lemma_entry(i as int);
                }
                let (_, v) = self.entries.remove(i);
                proof {
                    let after = *self;
                    assert forall|a: int, b: int|
                        0 <= a < b < after.entries@.len() implies after.entries@[a].0@
                        != after.entries@[b].0@ by {
                        let a0 = if a < i { a } else { a + 1 };
                        let b0 = if b < i { b } else { b + 1 };
                        assert(after.entries@[a] == before.entries@[a0]);
                        assert(after.entries@[b] == before.entries@[b0]);
                    }
                    assert forall|k: Seq<u8>| #[trigger]
                        after@.dom().contains(k) == before@.remove(node@).dom().contains(k) by {
                        if after@.dom().contains(k) {
                            let j = choose|j: int| after.holds_at(k, j);
                            let j0 = if j < i { j } else { j + 1 };
                            assert(before.holds_at(k, j0));
                        }
                        if before@.remove(node@).dom().contains(k) {
                            let j0 = choose|j: int| before.holds_at(k, j);
                            let j = if j0 < i { j0 } else { j0 - 1 };
                            assert(after.holds_at(k, j));
                        }
                    }
                    assert forall|k: Seq<u8>| #[trigger]
                        after@.dom().contains(k) implies after@[k] == before@.remove(node@)[k] by {
                        let j = choose|j: int| after.holds_at(k, j);
                        let j0 = if j < i { j } else { j + 1 };
                        after.lemma_entry(j);
                        before.lemma_entry(j0);
                        assert(after.entries@[j] == before.entries@[j0]);
                        assert(before@.remove(node@).dom().contains(k));
                    }
                    assert(after@ =~= before@.remove(node@));
                }
                Some(v)
            },
            None => {
                assert(self@ =~= old(self)@.remove(node@));
                None
            },
        }
    }

    /// Puts `value` in the place of what the map held for `node`, if anything.
    pub fn insert(&mut self, node: NodeId, value: V)
        requires
            old(self).wf(),
        ensures
            final(self).wf(),
            final(self)@ == old(self)@.insert(node@, value),
    {
        let _ = self.remove(&node);
        let ghost before = *self;
        self.entries.push((node, value));
        proof {
            let after = *self;
            assert(!before@.dom().contains(node@));
            assert forall|a: int, b: int|
                0 <= a < b < after.entries@.len() implies after.entries@[a].0@
                != after.entries@[b].0@ by {
                assert(after.entries@[a] == before.entries@[a]);
                before.lemma_entry(a);
                if b < before.entries@.len() {
                    assert(after.entries@[b] == before.entries@[b]);
                }
            }
            assert forall|k: Seq<u8>| #[trigger]
                after@.dom().contains(k) == before@.insert(node@, value).dom().contains(k) by {
                if after@.dom().contains(k) {
                    let j = choose|j: int| after.holds_at(k, j);
                    if j < before.entries@.len() {
                        assert(before.holds_at(k, j));
                    }
                }
                if before@.dom().contains(k) {
                    let j = choose|j: int| before.holds_at(k, j);
                    assert(after.holds_at(k, j));
                }
                assert(after.holds_at(node@, before.entries@.len() as int));
            }
            assert forall|k: Seq<u8>| #[trigger] after@.dom().contains(k) implies after@[k]
                == before@.insert(node@, value)[k] by {
                let j = choose|j: int| after.holds_at(k, j);
                after.lemma_entry(j);
                if j < before.entries@.len() {
                    before.lemma_entry(j);
                    assert(after.entries@[j] == before.entries@[j]);
                }
            }
            assert(after@ =~= before@.insert(node@, value));
            assert(after@ =~= old(self)@.insert(node@, value));
        }
    }
}

} // verus!
