//! What holds of the facade across several calls.

use vstd::prelude::*;

use crate::external::PoolHandle;
use crate::facade::DatabasePool;

verus! {

/// A facade made with `url` that has since seen only failed connectivity
/// probes is unchanged: it keeps its URL, holds no pool, and refuses every
/// lease with `NoPoolError`.
pub proof fn lemma_unconnected_facade_refuses_lease(
    url: Seq<char>,
    states: Seq<DatabasePool>,
    probed: Seq<PoolHandle>,
)
    requires
        states.len() == probed.len() + 1,
        states[0].is_fresh(url),
        forall|i: int|
            0 <= i < probed.len() ==> #[trigger] DatabasePool::probe_step(
                states[i],
                states[i + 1],
                probed[i],
                false,
            ),
    ensures
        forall|i: int| 0 <= i < states.len() ==> (#[trigger] states[i]).is_fresh(url),
        forall|i: int| 0 <= i < states.len() ==> (#[trigger] states[i]).refuses_lease(),
    decreases probed.len(),
{
    if probed.len() > 0 {
        let n = probed.len() - 1;
        lemma_unconnected_facade_refuses_lease(url, states.take(n + 1), probed.take(n));
        assert(states.take(n + 1)[n] == states[n]);
        assert(DatabasePool::probe_step(states[n], states[n + 1], probed[n], false));
        assert forall|i: int| 0 <= i < states.len() implies (#[trigger] states[i]).is_fresh(url) by {
            if i < n + 1 {
                assert(states.take(n + 1)[i] == states[i]);
                assert(states.take(n + 1)[i].is_fresh(url));
            }
        }
    }
}

/// After a probe of the new pool `h` succeeds, the facade serves clients from
/// `h`, no longer refuses a lease, and keeps its URL.
pub proof fn lemma_successful_connect_enables_lease(
    before: DatabasePool,
    after: DatabasePool,
    h: PoolHandle,
)
    requires
        DatabasePool::probe_step(before, after, h, true),
    ensures
        after.serves_from(h),
        !after.refuses_lease(),
        after.target() == before.target(),
{
}

/// A failed probe leaves the facade exactly as it was: a facade without a
/// pool still refuses a lease, and one with a pool keeps serving from it.
pub proof fn lemma_failed_probe_fails_closed(before: DatabasePool, after: DatabasePool, h: PoolHandle)
    requires
        DatabasePool::probe_step(before, after, h, false),
    ensures
        after == before,
        before.refuses_lease() ==> after.refuses_lease(),
        forall|old_pool: PoolHandle| before.serves_from(old_pool) ==> after.serves_from(old_pool),
{
}

/// Two successful connections in a row leave the facade serving from the
/// second pool, and no longer from a different first one.
pub proof fn lemma_reconnect_replaces_pool(
    first: DatabasePool,
    second: DatabasePool,
    third: DatabasePool,
    h1: PoolHandle,
    h2: PoolHandle,
)
    requires
        DatabasePool::probe_step(first, second, h1, true),
        DatabasePool::probe_step(second, third, h2, true),
    ensures
        third.serves_from(h2),
        h1 != h2 ==> !third.serves_from(h1),
        third.target() == first.target(),
{
}

} // verus!
