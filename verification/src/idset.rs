//! A set of identifier strings (such as revoked delegation IDs), kept as a
//! vector without duplicates.

use vstd::prelude::*;
use crate::text::str_eq;

verus! {

broadcast use vstd::seq::Seq::lemma_push_to_set_commute;

/// A finite set of identifier strings.
#[derive(Debug)]
pub struct IdSet {
    ids: Vec<String>,
}

impl View for IdSet {
    type V = Set<Seq<char>>;

    closed spec fn view(&self) -> Set<Seq<char>> {
        self.ids.deep_view().to_set()
    }
}

impl IdSet {
    /// No identifier occurs twice in the vector.
    #[verifier::type_invariant]
    spec fn inv(&self) -> bool {
        self.ids.deep_view().no_duplicates()
    }

    /// The identifiers, in insertion order.
    pub closed spec fn items(&self) -> Seq<Seq<char>> {
        self.ids.deep_view()
    }

    /// The empty set.
    pub fn new() -> (s: IdSet)
        ensures
            s@ == Set::<Seq<char>>::empty(),
    {
        let s = IdSet { ids: Vec::new() };
        assert(s.ids.deep_view() =~= Seq::<Seq<char>>::empty());
        assert(s@ =~= Set::<Seq<char>>::empty());
        s
    }

    /// Whether `id` is in the set.
    pub fn contains(&self, id: &str) -> (r: bool)
        ensures
            r == self@.contains(id@),
    {
        let mut i: usize = 0;
        while i < self.ids.len()
            invariant
                i <= self.ids@.len(),
                forall|k: int| 0 <= k < i ==> self.ids.deep_view()[k] != id@,
            decreases self.ids@.len() - i,
        {
            if str_eq(self.ids[i].as_str(), id) {
                assert(self.ids.deep_view()[i as int] == id@);
                assert(self.ids.deep_view().contains(id@));
                return true;
            }
            i = i + 1;
        }
        assert(!self.ids.deep_view().contains(id@));
        false
    }

    /// Adds `id`; `true` where it was not in the set before.
    pub fn insert(&mut self, id: String) -> (r: bool)
        ensures
            final(self)@ == old(self)@.insert(id@),
            r == !old(self)@.contains(id@),
    {
        if self.contains(id.as_str()) {
            assert(self@.insert(id@) =~= self@);
            return false;
        }
        proof {
            use_type_invariant(&*self);
        }
        let ghost before = self.ids.deep_view();
        let ghost old_v = self.ids@;
        let ghost idv = id@;
        let mut ids = Vec::new();
        std::mem::swap(&mut ids, &mut self.ids);
        ids.push(id);
        proof {
            assert forall|k: int| 0 <= k < before.len() + 1 implies ids.deep_view()[k] == before.push(idv)[k] by {
                if k < before.len() {
                    assert(ids@[k] == old_v[k]);
                }
            }
            assert(ids.deep_view() =~= before.push(idv));
            assert(!before.contains(idv));
            assert(before.push(idv).no_duplicates()) by {
                assert forall|a: int, b: int| 0 <= a < b < before.len() + 1 implies before.push(idv)[a] != before.push(idv)[b] by {
                    if b == before.len() {
                        assert(before[a] != idv);
                    }
                }
            }
            assert(before.push(idv).to_set() =~= before.to_set().insert(idv));
        }
        self.ids = ids;
        true
    }

    /// Adds every identifier of `other`.
    pub fn extend(&mut self, other: &IdSet)
        ensures
            final(self)@ == old(self)@.union(other@),
    {
        proof {
            use_type_invariant(other);
        }
        let mut i: usize = 0;
        let ghost start = self@;
        while i < other.ids.len()
            invariant
                i <= other.ids@.len(),
                self@ == start.union(other.ids.deep_view().subrange(0, i as int).to_set()),
            decreases other.ids@.len() - i,
        {
            let ghost pre = other.ids.deep_view().subrange(0, i as int);
            let x = other.ids[i].clone();
            self.insert(x);
            proof {
                let nxt = other.ids.deep_view().subrange(0, i + 1);
                assert(nxt =~= pre.push(other.ids.deep_view()[i as int]));
                assert(nxt.to_set() =~= pre.to_set().insert(other.ids.deep_view()[i as int]));
                assert(self@ =~= start.union(nxt.to_set()));
            }
            i = i + 1;
        }
        assert(other.ids.deep_view().subrange(0, other.ids@.len() as int) =~= other.ids.deep_view());
    }

    /// The set of the given identifiers (duplicates kept once).
    pub fn from_vec(ids: Vec<String>) -> (s: IdSet)
        ensures
            s@ == ids.deep_view().to_set(),
    {
        let mut s = IdSet::new();
        let mut i: usize = 0;
        while i < ids.len()
            invariant
                i <= ids@.len(),
                s@ == ids.deep_view().subrange(0, i as int).to_set(),
            decreases ids@.len() - i,
        {
            let ghost pre = ids.deep_view().subrange(0, i as int);
            s.insert(ids[i].clone());
            proof {
                let nxt = ids.deep_view().subrange(0, i + 1);
                assert(nxt =~= pre.push(ids.deep_view()[i as int]));
                assert(nxt.to_set() =~= pre.to_set().insert(ids.deep_view()[i as int]));
            }
            i = i + 1;
        }
        assert(ids.deep_view().subrange(0, ids@.len() as int) =~= ids.deep_view());
        s
    }

    /// Number of identifiers.
    pub fn len(&self) -> (r: usize)
        ensures
            r == self@.len(),
    {
        proof {
            use_type_invariant(self);
            self.ids.deep_view().unique_seq_to_set();
        }
        self.ids.len()
    }

    /// Whether the set is empty.
    pub fn is_empty(&self) -> (r: bool)
        ensures
            r == (self@.len() == 0),
    {
        proof {
            use_type_invariant(self);
            self.ids.deep_view().unique_seq_to_set();
        }
        self.ids.len() == 0
    }

    /// Removes every identifier.
    pub fn clear(&mut self)
        ensures
            final(self)@ == Set::<Seq<char>>::empty(),
    {
        let e: Vec<String> = Vec::new();
        assert(e.deep_view() =~= Seq::<Seq<char>>::empty());
        self.ids = e;
        assert(self@ =~= Set::<Seq<char>>::empty());
    }

    /// The identifiers, in insertion order (each once).
    pub fn to_vec(&self) -> (r: Vec<String>)
        ensures
            r.deep_view() == self.items(),
            r.deep_view().to_set() == self@,
            r.deep_view().no_duplicates(),
    {
        proof {
            use_type_invariant(self);
        }
        let mut out: Vec<String> = Vec::new();
        let mut i: usize = 0;
        while i < self.ids.len()
            invariant
                i <= self.ids@.len(),
                out@.len() == i,
                out.deep_view() == self.ids.deep_view().subrange(0, i as int),
            decreases self.ids@.len() - i,
        {
            let ghost old_out = out@;
            let ghost old_dv = out.deep_view();
            let x = self.ids[i].clone();
            out.push(x);
            proof {
                assert forall|k: int| 0 <= k < i + 1 implies out.deep_view()[k] == self.ids.deep_view()[k] by {
                    if k < i {
                        assert(out@[k] == old_out[k]);
                        assert(old_dv[k] == self.ids.deep_view().subrange(0, i as int)[k]);
                    }
                }
            }
            assert(out.deep_view() =~= self.ids.deep_view().subrange(0, i + 1));
            i = i + 1;
        }
        assert(self.ids.deep_view().subrange(0, self.ids@.len() as int) =~= self.ids.deep_view());
        out
    }
}

impl Clone for IdSet {
    fn clone(&self) -> (r: IdSet)
        ensures
            r@ == self@,
    {
        IdSet { ids: self.to_vec() }
    }
}

} // verus!
