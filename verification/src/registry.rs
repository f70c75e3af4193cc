//! The backend registry: an ordered, fixed set of upstream endpoints whose
//! only mutable part is each endpoint's health status.

use vstd::prelude::*;

verus! {

/// Whether a backend is eligible for selection.
#[derive(Clone, Copy, PartialEq, Eq, Structural, Debug)]
pub enum Health {
    Healthy,
    Unhealthy,
}

/// One upstream endpoint. Its identity (the address) is fixed after
/// construction; only the health status ever changes, and only through
/// `Registry::set_health`.
pub struct Backend {
    pub addr: String,
    pub health: Health,
}

impl Clone for Backend {
    fn clone(&self) -> (r: Self)
        ensures
            r == *self,
    {
        Backend { addr: self.addr.clone(), health: self.health }
    }
}

/// The healthy subset of a sequence of backends, in its original order.
pub open spec fn healthy_subset(s: Seq<Backend>) -> Seq<Backend> {
    s.filter(|b: Backend| b.health == Health::Healthy)
}

/// Law: while every backend of the pool is `Healthy`, the healthy subset
/// is the whole pool, entry for entry — so round-robin selection against
/// the snapshot rotates over all registered backends.
pub proof fn lemma_all_healthy_snapshot_is_whole_pool(s: Seq<Backend>)
    requires
        forall|i: int| 0 <= i < s.len() ==> s[i].health == Health::Healthy,
    ensures
        healthy_subset(s) == s,
    decreases s.len(),
{
    broadcast use Seq::lemma_filter_push;

    if s.len() == 0 {
        assert(s =~= Seq::<Backend>::empty());
        assert(healthy_subset(s) =~= s);
    } else {
        let rest = s.drop_last();
        lemma_all_healthy_snapshot_is_whole_pool(rest);
        assert(s =~= rest.push(s.last()));
        assert(healthy_subset(s) =~= s);
    }
}

/// Law: a backend whose health stands at `Unhealthy` is never part of the
/// healthy subset — so a snapshot taken after a flip to `Unhealthy` has
/// completed (`set_health` ensures exactly such a pool) cannot include the
/// flipped backend; and every entry a snapshot does include was marked
/// `Healthy`, with registration order kept and no entry invented or
/// duplicated, the subset being a filter of the pool.
pub proof fn lemma_flip_excludes_backend(s: Seq<Backend>, i: int)
    requires
        0 <= i < s.len(),
        s[i].health == Health::Unhealthy,
    ensures
        !healthy_subset(s).contains(s[i]),
        forall|k: int|
            0 <= k < healthy_subset(s).len() ==> healthy_subset(s)[k].health == Health::Healthy,
{
    broadcast use vstd::seq_lib::group_filter_ensures;

    if healthy_subset(s).contains(s[i]) {
        let k = choose|k: int|
            0 <= k < healthy_subset(s).len() && healthy_subset(s)[k] == s[i];
        assert(healthy_subset(s)[k].health == Health::Healthy);
    }
}

/// The registry owns the pool. Backends are registered once, at
/// construction, and keep their position; a backend is addressed by its
/// index (`id`). Backends are seeded `Healthy` (fail-open): traffic may be
/// routed before the first probe cycle completes, and the first failed
/// probe takes a dead backend out of rotation.
pub struct Registry {
    backends: Vec<Backend>,
}

impl View for Registry {
    type V = Seq<Backend>;

    closed spec fn view(&self) -> Seq<Backend> {
        self.backends@
    }
}

impl Registry {
    /// Build the pool from the static address list, in the given order,
    /// every backend seeded `Healthy`.
    pub fn new(addrs: &Vec<String>) -> (r: Registry)
        ensures
            r@.len() == addrs@.len(),
            forall|i: int|
                0 <= i < addrs@.len() ==> r@[i] == (Backend {
                    addr: addrs@[i],
                    health: Health::Healthy,
                }),
    {
        let mut backends: Vec<Backend> = Vec::new();
        let mut i: usize = 0;
        while i < addrs.len()
            invariant
                i <= addrs@.len(),
                backends@.len() == i,
                forall|k: int|
                    0 <= k < i ==> backends@[k] == (Backend {
                        addr: addrs@[k],
                        health: Health::Healthy,
                    }),
            decreases addrs@.len() - i,
        {
            backends.push(Backend { addr: addrs[i].clone(), health: Health::Healthy });
            i = i + 1;
        }
        Registry { backends }
    }

    /// How many backends are registered (healthy or not).
    pub fn len(&self) -> (r: usize)
        ensures
            r == self@.len(),
    {
        self.backends.len()
    }

    /// The address of backend `id`.
    pub fn addr(&self, id: usize) -> (r: &String)
        requires
            id < self@.len(),
        ensures
            *r == self@[id as int].addr,
    {
        &self.backends[id].addr
    }

    /// The current health status of backend `id`.
    pub fn health(&self, id: usize) -> (r: Health)
        requires
            id < self@.len(),
        ensures
            r == self@[id as int].health,
    {
        self.backends[id].health
    }

    /// Overwrite the health status of backend `id`; every other backend and
    /// every address are untouched. Overwriting with the status already held
    /// leaves the registry as it was, so the call is idempotent.
    pub fn set_health(&mut self, id: usize, status: Health)
        requires
            id < old(self)@.len(),
        ensures
            final(self)@.len() == old(self)@.len(),
            final(self)@[id as int].addr == old(self)@[id as int].addr,
            final(self)@[id as int].health == status,
            forall|k: int|
                0 <= k < final(self)@.len() && k != id ==> final(self)@[k] == old(self)@[k],
    {
        self.backends[id].health = status;
    }

    /// The backends currently marked `Healthy`, in registration order.
    /// The result is a snapshot: a plain copy that later health flips
    /// cannot tear.
    pub fn healthy_snapshot(&self) -> (r: Vec<Backend>)
        ensures
            r@ == healthy_subset(self@),
    {
        let mut out: Vec<Backend> = Vec::new();
        let mut i: usize = 0;
        while i < self.backends.len()
            invariant
                i <= self@.len(),
                out@ == healthy_subset(self@.subrange(0, i as int)),
            decreases self@.len() - i,
        {
            proof {
                broadcast use Seq::lemma_filter_push;

                assert(self@.subrange(0, i + 1) =~= self@.subrange(0, i as int).push(
                    self@[i as int],
                ));
            }
            let b = &self.backends[i];
            if b.health == Health::Healthy {
                out.push(b.clone());
            }
            i = i + 1;
        }
        proof {
            assert(self@.subrange(0, self@.len() as int) =~= self@);
        }
        out
    }
}

} // verus!
