use vstd::prelude::*;

verus! {

/// Shared pool of reusable subtrees harvested during fuzzing: a mapping
/// from subtree identity to subtree content, consulted by splicing and
/// extended whenever a mutation reveals new coverage. The read/write lock
/// around the pool, and the auxiliary busy flag polled by the liveness
/// watchdog, are its callers' concern.
pub struct CorpusStore {
    items: Vec<(u64, Vec<u8>)>,
}

impl CorpusStore {
    /// The stored subtrees, in insertion order, as (identity, content).
    pub closed spec fn entries(self) -> Seq<(u64, Vec<u8>)> {
        self.items@
    }

    /// Whether a subtree with this identity is stored.
    pub open spec fn has_tree(self, ident: u64) -> bool {
        exists|k: int| 0 <= k < self.entries().len() && (#[trigger] self.entries()[k]).0 == ident
    }

    /// Identities are unique: the pool is a mapping, not a multiset.
    pub open spec fn wf(self) -> bool {
        forall|j: int, k: int|
            0 <= j < k < self.entries().len() ==> (#[trigger] self.entries()[j]).0 != (
            #[trigger] self.entries()[k]).0
    }

    pub fn new() -> (r: CorpusStore)
        ensures
            r.entries() == Seq::<(u64, Vec<u8>)>::empty(),
            r.wf(),
    {
        CorpusStore { items: Vec::new() }
    }

    /// How many subtrees the pool holds.
    pub fn trees(&self) -> (n: usize)
        ensures
            n == self.entries().len(),
    {
        self.items.len()
    }

    /// Whether a subtree with this identity is stored.
    pub fn contains_tree(&self, ident: u64) -> (r: bool)
        ensures
            r == self.has_tree(ident),
    {
        let mut k: usize = 0;
        while k < self.items.len()
            invariant
                k <= self.items.len(),
                forall|j: int| 0 <= j < k ==> (#[trigger] self.items@[j]).0 != ident,
            decreases self.items.len() - k,
        {
            if self.items[k].0 == ident {
                proof {
                    assert((self.entries()[k as int]).0 == ident);
                }
                return true;
            }
            k += 1;
        }
        false
    }

    /// Insert a subtree under its identity; an identity already present
    /// keeps its stored content and the pool is left unchanged.
    pub fn add_tree(&mut self, ident: u64, content: Vec<u8>)
        requires
            old(self).wf(),
        ensures
            final(self).wf(),
            old(self).has_tree(ident) ==> final(self).entries() == old(self).entries(),
            !old(self).has_tree(ident) ==> final(self).entries() == old(self).entries().push(
                (ident, content),
            ),
            final(self).has_tree(ident),
    {
        if !self.contains_tree(ident) {
            self.items.push((ident, content));
            proof {
                let es = self.entries();
                let n = es.len() - 1;
                assert(es =~= old(self).entries().push((ident, content)));
                assert((es[n]).0 == ident);
                assert forall|j: int, k: int|
                    0 <= j < k < es.len() implies (#[trigger] es[j]).0 != (#[trigger] es[k]).0 by {
                    if k < n {
                        assert((old(self).entries()[j]).0 != (old(self).entries()[k]).0);
                    } else {
                        assert((old(self).entries()[j]).0 != ident);
                    }
                }
            }
        }
    }
}

} // verus!
