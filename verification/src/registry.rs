//! The nonce registry: the set of nonce ids already consumed.
//!
//! Membership only grows; there is no expiry, no size bound and no
//! persistence. The registry itself is sequential code; the pipeline's
//! caller guards it with mutual exclusion, so each `check_and_record` call
//! holds the one `&mut` borrow and is atomic with respect to concurrent
//! submissions.

use vstd::prelude::*;

verus! {

/// A concurrency-safe (under an exclusive borrow) set of consumed nonce
/// ids, viewed as the set of their character sequences.
pub struct NonceRegistry {
    ids: Vec<String>,
}

impl View for NonceRegistry {
    type V = Set<Seq<char>>;

    closed spec fn view(&self) -> Set<Seq<char>> {
        self.ids@.map_values(|s: String| s@).to_set()
    }
}

impl Default for NonceRegistry {
    /// An empty registry, as [`NonceRegistry::new`] builds it.
    fn default() -> (r: NonceRegistry)
        ensures
            r@ == Set::<Seq<char>>::empty(),
    {
        NonceRegistry::new()
    }
}

impl NonceRegistry {
    /// Membership in the view is witnessed by an index of the backing list.
    proof fn lemma_view_contains(self, id: Seq<char>)
        ensures
            self@.contains(id) <==> exists|j: int|
                0 <= j < self.ids@.len() && self.ids@[j]@ == id,
    {
        let mapped = self.ids@.map_values(|s: String| s@);
        if self@.contains(id) {
            assert(mapped.contains(id));
            let j = choose|j: int| 0 <= j < mapped.len() && mapped[j] == id;
            assert(self.ids@[j]@ == id);
        }
        if exists|j: int| 0 <= j < self.ids@.len() && self.ids@[j]@ == id {
            let j = choose|j: int| 0 <= j < self.ids@.len() && self.ids@[j]@ == id;
            assert(mapped[j] == id);
            assert(mapped.contains(id));
        }
    }

    /// An empty registry: no nonce id has been consumed yet.
    pub fn new() -> (r: NonceRegistry)
        ensures
            r@ == Set::<Seq<char>>::empty(),
    {
        let r = NonceRegistry { ids: Vec::new() };
        proof {
            assert(r.ids@.map_values(|s: String| s@).len() == 0);
            assert(r@ =~= Set::<Seq<char>>::empty());
        }
        r
    }

    /// Whether `id` has already been consumed. Read-only.
    pub fn contains(&self, id: &String) -> (present: bool)
        ensures
            present == self@.contains(id@),
    {
        let n = self.ids.len();
        let mut i: usize = 0;
        while i < n
            invariant
                n == self.ids@.len(),
                i <= n,
                forall|j: int| 0 <= j < i ==> self.ids@[j]@ != id@,
            decreases n - i,
        {
            if self.ids[i] == *id {
                proof {
                    self.lemma_view_contains(id@);
                }
                return true;
            }
            i = i + 1;
        }
        proof {
            self.lemma_view_contains(id@);
        }
        false
    }

    /// The atomic test-and-set of the replay check: records `id` and returns
    /// `true` if it was absent; returns `false` and leaves the registry
    /// unchanged if it was already present. Of any sequence of calls with
    /// the same id, exactly the first returns `true`.
    pub fn check_and_record(&mut self, id: &String) -> (fresh: bool)
        ensures
            fresh == !old(self)@.contains(id@),
            final(self)@ == old(self)@.insert(id@),
    {
        if self.contains(id) {
            proof {
                assert(old(self)@.insert(id@) =~= old(self)@);
            }
            false
        } else {
            self.ids.push(id.clone());
            proof {
                let oldm = old(self).ids@.map_values(|s: String| s@);
                let newm = self.ids@.map_values(|s: String| s@);
                assert(newm =~= oldm.push(id@));
                assert forall|a: Seq<char>| #[trigger] newm.to_set().contains(a) implies old(
                    self,
                )@.insert(id@).contains(a) by {
                    let j = choose|j: int| 0 <= j < newm.len() && newm[j] == a;
                    if j < oldm.len() {
                        assert(oldm.contains(a));
                    } else {
                        assert(a == id@);
                    }
                };
                assert forall|a: Seq<char>| #[trigger] old(self)@.insert(id@).contains(
                    a,
                ) implies newm.to_set().contains(a) by {
                    if a == id@ {
                        assert(newm[newm.len() - 1] == a);
                        assert(newm.contains(a));
                    } else {
                        let j = choose|j: int| 0 <= j < oldm.len() && oldm[j] == a;
                        assert(newm[j] == a);
                        assert(newm.contains(a));
                    }
                };
                assert(self@ =~= old(self)@.insert(id@));
            }
            true
        }
    }
}

} // verus!
