//! Session registry: the mapping from connection identity to the
//! send-capable handle of that connection.
//!
//! The registry is owned by the server role, populated when a peer
//! connection opens and emptied as peers close. Registering is
//! insert-or-replace and deregistering an unknown identity is a no-op, so
//! both are idempotent. The registry is viewed as a `Map` from identity to
//! handle.

use vstd::prelude::*;
use vstd::seq_lib::*;

verus! {

/// The identities of a pairing sequence, in order.
spec fn spec_keys<H>(s: Seq<(u64, H)>) -> Seq<u64> {
    s.map_values(|p: (u64, H)| p.0)
}

/// The map held by a pairing sequence; a later pair for the same identity
/// shadows an earlier one.
spec fn spec_map_of<H>(s: Seq<(u64, H)>) -> Map<u64, H>
    decreases s.len(),
{
    if s.len() == 0 {
        Map::<u64, H>::empty()
    } else {
        spec_map_of(s.drop_last()).insert(s.last().0, s.last().1)
    }
}

/// Whether some pair of `s` carries the identity `k`.
spec fn spec_has_key<H>(s: Seq<(u64, H)>, k: u64) -> bool {
    exists|i: int| 0 <= i < s.len() && (#[trigger] s[i]).0 == k
}

proof fn lemma_map_of_dom<H>(s: Seq<(u64, H)>)
    ensures
        forall|k: u64| #[trigger] spec_map_of(s).dom().contains(k) <==> spec_has_key(s, k),
    decreases s.len(),
{
    if s.len() > 0 {
        lemma_map_of_dom(s.drop_last());
        assert forall|k: u64| spec_has_key(s, k) implies spec_map_of(s).dom().contains(k) by {
            let i = choose|i: int| 0 <= i < s.len() && (#[trigger] s[i]).0 == k;
            if i < s.len() - 1 {
                assert(s.drop_last()[i].0 == k);
                assert(spec_has_key(s.drop_last(), k));
                assert(spec_map_of(s.drop_last()).dom().contains(k));
            } else {
                assert(k == s.last().0);
            }
        }
        assert forall|k: u64| spec_map_of(s).dom().contains(k) implies spec_has_key(s, k) by {
            if k == s.last().0 {
                assert(s[s.len() - 1].0 == k);
            } else {
                assert(spec_map_of(s.drop_last()).dom().contains(k));
                assert(spec_has_key(s.drop_last(), k));
                let i = choose|i: int|
                    0 <= i < s.drop_last().len() && (#[trigger] s.drop_last()[i]).0 == k;
                assert(s[i].0 == k);
            }
        }
    }
}

proof fn lemma_keys_contains<H>(s: Seq<(u64, H)>)
    ensures
        forall|k: u64| #[trigger] spec_keys(s).contains(k) <==> spec_has_key(s, k),
{
    assert forall|k: u64| #[trigger] spec_keys(s).contains(k) implies spec_has_key(s, k) by {
        let i = choose|i: int| 0 <= i < spec_keys(s).len() && spec_keys(s)[i] == k;
        assert((s[i]).0 == k);
    }
    assert forall|k: u64| spec_has_key(s, k) implies spec_keys(s).contains(k) by {
        let i = choose|i: int| 0 <= i < s.len() && (#[trigger] s[i]).0 == k;
        assert(spec_keys(s)[i] == k);
    }
}

proof fn lemma_map_of_index<H>(s: Seq<(u64, H)>, i: int)
    requires
        0 <= i < s.len(),
        spec_keys(s).no_duplicates(),
    ensures
        spec_map_of(s).dom().contains(s[i].0),
        spec_map_of(s)[s[i].0] == s[i].1,
    decreases s.len(),
{
    assert(spec_keys(s)[i] == s[i].0);
    if i == s.len() - 1 {
    } else {
        assert(spec_keys(s.drop_last()) =~= spec_keys(s).drop_last());
        lemma_map_of_index(s.drop_last(), i);
        assert(spec_keys(s)[s.len() - 1] == s.last().0);
        assert(s[i].0 != s.last().0);
    }
}

proof fn lemma_map_of_remove<H>(s: Seq<(u64, H)>, i: int)
    requires
        0 <= i < s.len(),
        spec_keys(s).no_duplicates(),
    ensures
        spec_map_of(s.remove(i)) =~= spec_map_of(s).remove(s[i].0),
    decreases s.len(),
{
    let k = s[i].0;
    assert(spec_keys(s)[i] == k);
    lemma_map_of_dom(s.drop_last());
    assert(spec_keys(s.drop_last()) =~= spec_keys(s).drop_last());
    if i == s.len() - 1 {
        assert(s.remove(i) =~= s.drop_last());
        assert(!spec_map_of(s.drop_last()).dom().contains(k)) by {
            if spec_has_key(s.drop_last(), k) {
                let j = choose|j: int|
                    0 <= j < s.drop_last().len() && (#[trigger] s.drop_last()[j]).0 == k;
                assert(spec_keys(s)[j] == k && spec_keys(s)[i] == k);
            }
        }
        assert(spec_map_of(s.drop_last()).insert(k, s.last().1).remove(k) =~= spec_map_of(
            s.drop_last(),
        ));
    } else {
        let s2 = s.remove(i);
        assert(s2.drop_last() =~= s.drop_last().remove(i));
        assert(s2.last() == s.last());
        lemma_map_of_remove(s.drop_last(), i);
        assert(s[i].0 == s.drop_last()[i].0);
        assert(spec_keys(s)[s.len() - 1] == s.last().0);
        assert(k != s.last().0);
        assert(spec_map_of(s.drop_last()).remove(k).insert(s.last().0, s.last().1)
            =~= spec_map_of(s.drop_last()).insert(s.last().0, s.last().1).remove(k));
    }
}

proof fn lemma_map_of_finite<H>(s: Seq<(u64, H)>)
    ensures
        spec_map_of(s).dom().finite(),
    decreases s.len(),
{
    if s.len() > 0 {
        lemma_map_of_finite(s.drop_last());
    }
}

/// Map from connection identity to send handle, with one entry per live
/// peer connection.
pub struct Registry<H> {
    entries: Vec<(u64, H)>,
}

impl<H> View for Registry<H> {
    type V = Map<u64, H>;

    closed spec fn view(&self) -> Map<u64, H> {
        spec_map_of(self.entries@)
    }
}

impl<H> Registry<H> {
    /// Well-formedness: no identity occurs twice.
    pub closed spec fn wf(self) -> bool {
        spec_keys(self.entries@).no_duplicates()
    }

    /// The registry holds finitely many entries.
    pub proof fn lemma_dom_finite(&self)
        ensures
            self@.dom().finite(),
    {
        lemma_map_of_finite(self.entries@);
    }

    /// An empty registry.
    pub fn new() -> (r: Self)
        ensures
            r.wf(),
            r@ =~= Map::<u64, H>::empty(),
    {
        Registry { entries: Vec::new() }
    }

    fn index_of(&self, id: u64) -> (r: usize)
        ensures
            r <= self.entries@.len(),
            r < self.entries@.len() ==> self.entries@[r as int].0 == id,
            r == self.entries@.len() ==> forall|j: int|
                0 <= j < self.entries@.len() ==> self.entries@[j].0 != id,
    {
        let n = self.entries.len();
        let mut i: usize = 0;
        while i < n
            invariant
                i <= n,
                n == self.entries@.len(),
                forall|j: int| 0 <= j < i ==> self.entries@[j].0 != id,
            decreases n - i,
        {
            if self.entries[i].0 == id {
                return i;
            }
            i += 1;
        }
        n
    }

    /// The number of registered identities.
    pub fn len(&self) -> (r: usize)
        requires
            self.wf(),
        ensures
            r == self@.dom().len(),
    {
        proof {
            lemma_map_of_dom(self.entries@);
            lemma_keys_contains(self.entries@);
            assert(self@.dom() =~= spec_keys(self.entries@).to_set());
            spec_keys(self.entries@).unique_seq_to_set();
        }
        self.entries.len()
    }

    /// Whether `id` is registered.
    pub fn contains(&self, id: u64) -> (r: bool)
        ensures
            r == self@.dom().contains(id),
    {
        proof {
            lemma_map_of_dom(self.entries@);
        }
        let i = self.index_of(id);
        proof {
            if i < self.entries@.len() {
                assert(spec_has_key(self.entries@, id));
            }
        }
        i < self.entries.len()
    }

    /// The handle registered for `id`, if any.
    pub fn get(&self, id: u64) -> (r: Option<&H>)
        requires
            self.wf(),
        ensures
            r is Some <==> self@.dom().contains(id),
            r is Some ==> *r->Some_0 == self@[id],
    {
        proof {
            lemma_map_of_dom(self.entries@);
        }
        let i = self.index_of(id);
        if i < self.entries.len() {
            proof {
                lemma_map_of_index(self.entries@, i as int);
            }
            Some(&self.entries[i].1)
        } else {
            None
        }
    }

    /// Adds `id` with its send handle, replacing any earlier handle for the
    /// same identity.
    pub fn register(&mut self, id: u64, handle: H)
        requires
            old(self).wf(),
        ensures
            final(self).wf(),
            final(self)@ == old(self)@.insert(id, handle),
    {
        let ghost s0 = self.entries@;
        let i = self.index_of(id);
        if i < self.entries.len() {
            proof {
                lemma_map_of_remove(self.entries@, i as int);
            }
            self.entries.remove(i);
            proof {
                assert(spec_keys(self.entries@) =~= spec_keys(s0).remove(i as int));
                assert(spec_keys(s0).remove(i as int).no_duplicates());
                lemma_map_of_dom(self.entries@);
                assert(!self@.dom().contains(id)) by {
                    if spec_has_key(self.entries@, id) {
                        let j = choose|j: int|
                            0 <= j < self.entries@.len() && (#[trigger] self.entries@[j]).0
                                == id;
                        let j0: int = if j < i { j } else { j + 1 };
                        assert(s0[j0].0 == id);
                        assert(spec_keys(s0)[j0] == id && spec_keys(s0)[i as int] == id);
                    }
                };
            }
        } else {
            proof {
                lemma_map_of_dom(self.entries@);
            }
        }
        let ghost s1 = self.entries@;
        self.entries.push((id, handle));
        proof {
            assert(self.entries@.drop_last() =~= s1);
            assert(spec_keys(self.entries@) =~= spec_keys(s1).push(id));
            assert(spec_keys(self.entries@).no_duplicates()) by {
                assert(forall|j: int|
                    0 <= j < s1.len() ==> spec_keys(s1)[j] == #[trigger] s1[j].0);
            }
            assert(final(self)@ =~= old(self)@.insert(id, handle));
        }
    }

    /// Removes `id`; removing an identity that is not registered changes
    /// nothing, so a second deregistration is a no-op.
    pub fn deregister(&mut self, id: u64)
        requires
            old(self).wf(),
        ensures
            final(self).wf(),
            final(self)@ == old(self)@.remove(id),
    {
        let ghost s0 = self.entries@;
        let i = self.index_of(id);
        if i < self.entries.len() {
            proof {
                lemma_map_of_remove(self.entries@, i as int);
            }
            self.entries.remove(i);
            proof {
                assert(spec_keys(self.entries@) =~= spec_keys(s0).remove(i as int));
                assert(spec_keys(s0).remove(i as int).no_duplicates());
                assert(final(self)@ =~= old(self)@.remove(id));
            }
        } else {
            proof {
                lemma_map_of_dom(self.entries@);
                assert(final(self)@ =~= old(self)@.remove(id));
            }
        }
    }

    /// Empties the registry: every live entry is dropped at once, as when
    /// the listener they belong to is torn down.
    pub fn clear(&mut self)
        ensures
            final(self).wf(),
            final(self)@ == Map::<u64, H>::empty(),
    {
        self.entries = Vec::new();
        proof {
            assert(self@ =~= Map::<u64, H>::empty());
        }
    }

    /// The registered identities, each exactly once.
    pub fn ids(&self) -> (r: Vec<u64>)
        requires
            self.wf(),
        ensures
            r@.no_duplicates(),
            forall|k: u64| r@.contains(k) <==> self@.dom().contains(k),
            r@.len() == self@.dom().len(),
    {
        proof {
            lemma_map_of_dom(self.entries@);
            lemma_keys_contains(self.entries@);
            assert(self@.dom() =~= spec_keys(self.entries@).to_set());
            spec_keys(self.entries@).unique_seq_to_set();
        }
        let n = self.entries.len();
        let mut r: Vec<u64> = Vec::new();
        let mut i: usize = 0;
        while i < n
            invariant
                i <= n,
                n == self.entries@.len(),
                r@.len() == i,
                forall|j: int| 0 <= j < i ==> r@[j] == #[trigger] self.entries@[j].0,
            decreases n - i,
        {
            r.push(self.entries[i].0);
            i += 1;
        }
        proof {
            assert(r@ =~= spec_keys(self.entries@));
        }
        r
    }
}

/// Deregistration is idempotent: removing an identity from a registry view
/// twice leaves exactly what removing it once leaves, with no error in
/// between.
pub proof fn lemma_deregister_idempotent<H>(m: Map<u64, H>, id: u64)
    ensures
        m.remove(id).remove(id) == m.remove(id),
{
    assert(m.remove(id).remove(id) =~= m.remove(id));
}

} // verus!
