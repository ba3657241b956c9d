//! Identifiers of edits, and sets of them.

use vstd::prelude::*;

verus! {

/// The timestamp under which a buffer files one edit: the replica that made
/// the edit and that replica's logical clock at the time. A buffer never hands
/// out the same identifier twice, and resolves it to the text the edit touched
/// however far the text has moved since.
#[derive(Clone, Copy, Debug, PartialEq, Eq, Structural, Hash)]
pub struct EditId {
    pub replica_id: u16,
    pub value: u32,
}

/// A finite set of edit identifiers.
#[derive(Debug)]
pub struct EditIdSet {
    ids: Vec<EditId>,
}

impl View for EditIdSet {
    type V = Set<EditId>;

    closed spec fn view(&self) -> Set<EditId> {
        self.ids@.to_set()
    }
}

impl EditIdSet {
    #[verifier::type_invariant]
    spec fn no_identifier_twice(&self) -> bool {
        self.ids@.no_duplicates()
    }

    /// The empty set.
    pub fn new() -> (set: Self)
        ensures
            set@ == Set::<EditId>::empty(),
    {
        let set = EditIdSet { ids: Vec::new() };
        assert(set.ids@.to_set() =~= Set::<EditId>::empty());
        set
    }

    /// Whether `id` is a member.
    pub fn contains(&self, id: EditId) -> (found: bool)
        ensures
            found == self@.contains(id),
    {
        let mut i: usize = 0;
        while i < self.ids.len()
            invariant
                i <= self.ids.len(),
                forall|k: int| 0 <= k < i ==> self.ids@[k] != id,
            decreases self.ids.len() - i,
        {
            if self.ids[i] == id {
                return true;
            }
            i += 1;
        }
        false
    }

    /// Adds `id`, and tells whether it was new.
    pub fn insert(&mut self, id: EditId) -> (added: bool)
        ensures
            final(self)@ == old(self)@.insert(id),
            added == !old(self)@.contains(id),
    {
        proof {
            use_type_invariant(&*self);
        }
        if self.contains(id) {
            assert(self@.insert(id) =~= self@);
            false
        } else {
            let mut ids: Vec<EditId> = Vec::new();
            std::mem::swap(&mut self.ids, &mut ids);
            ids.push(id);
            self.ids = ids;
            assert(self.ids@.to_set() =~= old(self).ids@.to_set().insert(id)) by {
                assert forall|x: EditId| #[trigger]
                    self.ids@.to_set().contains(x) == old(self).ids@.to_set().insert(id).contains(
                        x,
                    ) by {
                    if self.ids@.contains(x) {
                        let k = choose|k: int| 0 <= k < self.ids@.len() && self.ids@[k] == x;
                        if k < old(self).ids@.len() {
                            assert(old(self).ids@[k] == x);
                        }
                    }
                    if old(self).ids@.contains(x) {
                        let k = choose|k: int|
                            0 <= k < old(self).ids@.len() && old(self).ids@[k] == x;
                        assert(self.ids@[k] == x);
                    }
                    if x == id {
                        assert(self.ids@[old(self).ids@.len() as int] == x);
                    }
                }
            }
            true
        }
    }

    /// Adds every identifier of `ids`.
    pub fn extend(&mut self, ids: &Vec<EditId>)
        ensures
            final(self)@ == old(self)@.union(ids@.to_set()),
    {
        let mut i: usize = 0;
        assert(ids@.take(0).to_set() =~= Set::<EditId>::empty());
        assert(self@.union(Set::<EditId>::empty()) =~= self@);
        while i < ids.len()
            invariant
                i <= ids.len(),
                self@ == old(self)@.union(ids@.take(i as int).to_set()),
            decreases ids.len() - i,
        {
            self.insert(ids[i]);
            proof {
                let before = ids@.take(i as int);
                let after = ids@.take(i as int + 1);
                assert(after =~= before.push(ids@[i as int]));
                before.lemma_push_to_set_commute(ids@[i as int]);
                assert(self@ =~= old(self)@.union(after.to_set()));
            }
            i += 1;
        }
        assert(ids@.take(ids.len() as int) =~= ids@);
    }

    /// The number of members.
    pub fn len(&self) -> (n: usize)
        ensures
            self@.finite(),
            n == self@.len(),
    {
        proof {
            use_type_invariant(self);
            self.ids@.unique_seq_to_set();
            vstd::seq_lib::seq_to_set_is_finite(self.ids@);
        }
        self.ids.len()
    }

    /// Whether the set has no member.
    pub fn is_empty(&self) -> (empty: bool)
        ensures
            empty == (self@ == Set::<EditId>::empty()),
    {
        proof {
            if self.ids@.len() > 0 {
                assert(self.ids@.to_set().contains(self.ids@[0]));
            } else {
                assert(self.ids@.to_set() =~= Set::<EditId>::empty());
            }
        }
        self.ids.len() == 0
    }

    /// The members, each once, oldest first.
    pub fn to_vec(&self) -> (ids: Vec<EditId>)
        ensures
            ids@.no_duplicates(),
            ids@.to_set() == self@,
    {
        proof {
            use_type_invariant(self);
        }
        let mut out: Vec<EditId> = Vec::new();
        let mut i: usize = 0;
        while i < self.ids.len()
            invariant
                i <= self.ids.len(),
                out@ == self.ids@.take(i as int),
            decreases self.ids.len() - i,
        {
            out.push(self.ids[i]);
            assert(self.ids@.take(i as int + 1) =~= self.ids@.take(i as int).push(
                self.ids@[i as int],
            ));
            i += 1;
        }
        assert(self.ids@.take(self.ids.len() as int) =~= self.ids@);
        out
    }
}

impl Clone for EditIdSet {
    fn clone(&self) -> (copy: Self)
        ensures
            copy@ == self@,
    {
        proof {
            use_type_invariant(self);
        }
        EditIdSet { ids: self.to_vec() }
    }
}

} // verus!
