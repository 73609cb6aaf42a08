//! Channel identifiers and the pool that hands them out.
use vstd::prelude::*;

verus! {

/// What [`crate::Poll::poll`] returns when no channel became ready in time.
pub const TIMEOUT: i32 = -1;

/// The identifier of one channel: never negative, so never [`TIMEOUT`].
#[derive(Clone, Copy)]
pub struct ChannelId {
    id: i32,
}

impl ChannelId {
    #[verifier::type_invariant]
    spec fn non_negative(self) -> bool {
        self.id >= 0
    }

    /// The identifier as a number.
    pub closed spec fn spec_value(self) -> int {
        self.id as int
    }

    pub fn value(&self) -> (r: i32)
        ensures
            r == self.spec_value(),
            r >= 0,
    {
        proof {
            use_type_invariant(self);
        }
        self.id
    }
}

/// Hands out identifiers in increasing order, starting from zero.
pub struct IdPool {
    next: i32,
}

/// `id` is what one allocation from `before` handed out, leaving `after`.
pub open spec fn allocates(before: IdPool, after: IdPool, id: int) -> bool {
    &&& before.wf()
    &&& after.wf()
    &&& id == before.next_id()
    &&& after.next_id() == before.next_id() + 1
}

impl IdPool {
    /// The identifier that the next allocation hands out.
    pub closed spec fn next_id(self) -> int {
        self.next as int
    }

    pub closed spec fn wf(self) -> bool {
        self.next >= 0
    }

    pub fn new() -> (r: IdPool)
        ensures
            r.wf(),
            r.next_id() == 0,
    {
        IdPool { next: 0 }
    }

    /// Whether another identifier can be handed out.
    pub fn has_next(&self) -> (r: bool)
        ensures
            r == (self.next_id() < i32::MAX),
    {
        self.next < i32::MAX
    }

    /// Takes the next identifier.
    pub fn allocate(&mut self) -> (r: ChannelId)
        requires
            old(self).wf(),
            old(self).next_id() < i32::MAX,
        ensures
            allocates(*old(self), *final(self), r.spec_value()),
    {
        let id = ChannelId { id: self.next };
        self.next = self.next + 1;
        id
    }
}

proof fn lemma_ids_step(pools: Seq<IdPool>, ids: Seq<int>, k: int)
    requires
        pools.len() == ids.len() + 1,
        forall|i: int| 0 <= i < ids.len() ==> allocates(#[trigger] pools[i], pools[i + 1], ids[i]),
        0 <= k < ids.len(),
    ensures
        ids[k] == pools[0].next_id() + k,
    decreases k,
{
    if k > 0 {
        lemma_ids_step(pools, ids, k - 1);
        assert(allocates(pools[k - 1], pools[k], ids[k - 1]));
        assert(allocates(pools[k], pools[k + 1], ids[k]));
    } else {
        assert(allocates(pools[0], pools[1], ids[0]));
    }
}

/// Identifiers handed out by successive allocations strictly increase, so no
/// identifier is handed out twice.
pub proof fn lemma_ids_strictly_increase(pools: Seq<IdPool>, ids: Seq<int>)
    requires
        pools.len() == ids.len() + 1,
        forall|i: int| 0 <= i < ids.len() ==> allocates(#[trigger] pools[i], pools[i + 1], ids[i]),
    ensures
        forall|i: int, j: int| 0 <= i < j < ids.len() ==> ids[i] < ids[j],
{
    assert forall|i: int, j: int| 0 <= i < j < ids.len() implies ids[i] < ids[j] by {
        lemma_ids_step(pools, ids, i);
        lemma_ids_step(pools, ids, j);
    }
}

/// No allocation ever hands out the timeout value.
pub proof fn lemma_id_is_not_timeout(before: IdPool, after: IdPool, id: int)
    requires
        allocates(before, after, id),
    ensures
        id != TIMEOUT,
        id >= 0,
{
}

} // verus!
