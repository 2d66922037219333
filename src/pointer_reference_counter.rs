use std::collections::HashMap;
use vstd::multiset::Multiset;
use vstd::prelude::*;

verus! {

broadcast use {vstd::std_specs::hash::group_hash_axioms, vstd::multiset::group_multiset_axioms};

/// Closes the native resources of one kind, given their identity. The
/// registry tells its caller when a resource's last reference is gone; the
/// caller then destroys it with its `Destroy`.
pub trait Destroy {
    /// Destroys the resource whose identity is `id`.
    fn destroy(&self, id: u64);
}

/// Counts the live references to shared native resources, by identity.
///
/// Its view is a multiset: the multiplicity of an identity is the number of
/// owners that hold it, and an identity of multiplicity zero has been
/// destroyed (or was never registered).
pub struct PointerReferenceCounter {
    map: HashMap<u64, usize>,
}

impl View for PointerReferenceCounter {
    type V = Multiset<u64>;

    closed spec fn view(&self) -> Multiset<u64> {
        Multiset::from_map(self.map@.map_values(|c: usize| c as nat))
    }
}

impl PointerReferenceCounter {
    /// An identity is in the table exactly while it is held.
    pub closed spec fn wf(&self) -> bool {
        forall|k: u64| #[trigger] self.map@.contains_key(k) ==> self.map@[k] >= 1
    }

    proof fn lemma_count(self, k: u64)
        ensures
            self@.count(k) == if self.map@.contains_key(k) {
                self.map@[k] as nat
            } else {
                0
            },
    {
        broadcast use vstd::std_specs::hash::axiom_hashmap_view_finite_dom;

        let m = self.map@.map_values(|c: usize| c as nat);
        assert(m.dom() =~= self.map@.dom());
    }

    pub fn new() -> (r: Self)
        ensures
            r.wf(),
            r@ =~= Multiset::<u64>::empty(),
    {
        let r = PointerReferenceCounter { map: HashMap::new() };
        assert forall|k: u64| r@.count(k) == Multiset::<u64>::empty().count(k) by {
            r.lemma_count(k);
        }
        r
    }

    /// The number of references held on `id`.
    pub fn count(&self, id: u64) -> (r: usize)
        ensures
            r as nat == self@.count(id),
    {
        proof {
            self.lemma_count(id);
        }
        match self.map.get(&id) {
            Some(c) => *c,
            None => 0,
        }
    }

    /// Registers one more owner of `id`.
    pub fn incr(&mut self, id: u64)
        requires
            old(self).wf(),
            old(self)@.count(id) < usize::MAX,
        ensures
            final(self).wf(),
            final(self)@ =~= old(self)@.insert(id),
    {
        proof {
            self.lemma_count(id);
        }
        let ghost before = *self;
        let c: usize = match self.map.get(&id) {
            Some(c) => *c,
            None => 0,
        };
        self.map.insert(id, c + 1);
        proof {
            assert forall|k: u64| self@.count(k) == before@.insert(id).count(k) by {
                self.lemma_count(k);
                before.lemma_count(k);
            }
        }
    }

    /// Drops one owner of `id`, which must be held: releasing more often
    /// than acquiring is a defect of the caller. Returns `true` exactly when
    /// that was the last owner: the entry has then left the table and the
    /// caller must destroy the resource, once.
    pub fn decr(&mut self, id: u64) -> (last: bool)
        requires
            old(self).wf(),
            old(self)@.count(id) >= 1,
        ensures
            final(self).wf(),
            final(self)@ =~= old(self)@.remove(id),
            last == (old(self)@.count(id) == 1),
            last <==> final(self)@.count(id) == 0,
    {
        proof {
            self.lemma_count(id);
        }
        let ghost before = *self;
        let c: usize = match self.map.get(&id) {
            Some(c) => *c,
            None => 0,
        };
        if c == 1 {
            self.map.remove(&id);
        } else {
            self.map.insert(id, c - 1);
        }
        proof {
            assert forall|k: u64| self@.count(k) == before@.remove(id).count(k) by {
                self.lemma_count(k);
                before.lemma_count(k);
            }
        }
        c == 1
    }

}

/// The table after the steps `ops` on `id`, starting from `m`: `true` is an
/// acquire (`incr`), `false` a release (`decr`). `decr` admits no release of
/// an unheld identity; here such a step changes nothing.
pub open spec fn after_ops(m: Multiset<u64>, id: u64, ops: Seq<bool>) -> Multiset<u64>
    decreases ops.len(),
{
    if ops.len() == 0 {
        m
    } else {
        let before = after_ops(m, id, ops.drop_last());
        if ops.last() {
            before.insert(id)
        } else {
            before.remove(id)
        }
    }
}

/// How many steps of `ops` release the last reference to `id`: the releases
/// on which `decr` returns `true`, and so the number of times its caller
/// destroys the resource.
pub open spec fn destroys_in(m: Multiset<u64>, id: u64, ops: Seq<bool>) -> nat
    decreases ops.len(),
{
    if ops.len() == 0 {
        0
    } else {
        let last_destroys = !ops.last() && after_ops(m, id, ops.drop_last()).count(id) == 1;
        destroys_in(m, id, ops.drop_last()) + if last_destroys {
            1nat
        } else {
            0nat
        }
    }
}

/// The number of acquires in `ops`.
pub open spec fn acquires_in(ops: Seq<bool>) -> nat
    decreases ops.len(),
{
    if ops.len() == 0 {
        0
    } else {
        acquires_in(ops.drop_last()) + if ops.last() {
            1nat
        } else {
            0nat
        }
    }
}

/// The number of releases in `ops`.
pub open spec fn releases_in(ops: Seq<bool>) -> nat
    decreases ops.len(),
{
    if ops.len() == 0 {
        0
    } else {
        releases_in(ops.drop_last()) + if ops.last() {
            0nat
        } else {
            1nat
        }
    }
}

/// While the identity stays held, the count is the acquires less the
/// releases so far, and nothing has been destroyed.
proof fn lemma_held_prefix(m: Multiset<u64>, id: u64, ops: Seq<bool>, k: int)
    requires
        m.count(id) == 0,
        forall|i: int| 0 < i < ops.len() ==> #[trigger] after_ops(m, id, ops.take(i)).count(id) >= 1,
        ops.len() >= 1,
        ops[0],
        1 <= k <= ops.len(),
    ensures
        after_ops(m, id, ops.take(k)).count(id) == acquires_in(ops.take(k)) - releases_in(ops.take(k)),
        k < ops.len() ==> destroys_in(m, id, ops.take(k)) == 0,
    decreases k,
{
    let pre = ops.take(k);
    if k == 1 {
        assert(pre.drop_last() =~= Seq::<bool>::empty());
        assert(pre.last() == ops[0]);
        assert(after_ops(m, id, Seq::<bool>::empty()) == m);
        assert(acquires_in(Seq::<bool>::empty()) == 0);
        assert(releases_in(Seq::<bool>::empty()) == 0);
        assert(destroys_in(m, id, Seq::<bool>::empty()) == 0);
        assert(after_ops(m, id, pre) == m.insert(id));
    } else {
        lemma_held_prefix(m, id, ops, k - 1);
        assert(pre.drop_last() =~= ops.take(k - 1));
        assert(pre.last() == ops[k - 1]);
        let c = after_ops(m, id, ops.take(k - 1)).count(id);
        assert(c >= 1);
        if ops[k - 1] {
            assert(after_ops(m, id, pre) == after_ops(m, id, ops.take(k - 1)).insert(id));
        } else {
            assert(after_ops(m, id, pre) == after_ops(m, id, ops.take(k - 1)).remove(id));
            if k < ops.len() {
                assert(after_ops(m, id, ops.take(k)).count(id) >= 1);
            }
        }
    }
}

/// Over any run of acquires and releases of one identity that starts unheld
/// and keeps it held from the first step until the last, `decr` reports the
/// last reference (and the resource is destroyed) exactly once if and only if the acquires and the releases are
/// equal in number and there is at least one of each.
pub proof fn lemma_destroyed_exactly_once(m: Multiset<u64>, id: u64, ops: Seq<bool>)
    requires
        m.count(id) == 0,
        forall|i: int| 0 < i < ops.len() ==> #[trigger] after_ops(m, id, ops.take(i)).count(id) >= 1,
    ensures
        destroys_in(m, id, ops) == 1 <==> (acquires_in(ops) == releases_in(ops) && acquires_in(ops)
            >= 1),
{
    let n = ops.len() as int;
    assert(after_ops(m, id, Seq::<bool>::empty()) == m);
    if n == 0 {
    } else if n == 1 {
        assert(ops.drop_last() =~= Seq::<bool>::empty());
        assert(acquires_in(Seq::<bool>::empty()) == 0);
        assert(releases_in(Seq::<bool>::empty()) == 0);
        assert(destroys_in(m, id, Seq::<bool>::empty()) == 0);
    } else {
        assert(ops.take(1).drop_last() =~= Seq::<bool>::empty());
        assert(ops.take(1).last() == ops[0]);
        assert(after_ops(m, id, ops.take(1)).count(id) >= 1);
        if !ops[0] {
            assert(after_ops(m, id, ops.take(1)) == m.remove(id));
        }
        lemma_held_prefix(m, id, ops, n - 1);
        assert(ops.drop_last() =~= ops.take(n - 1));
        assert(after_ops(m, id, ops.take(n - 1)).count(id) >= 1);
    }
}

} // verus!
