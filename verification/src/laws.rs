use vstd::prelude::*;

use crate::event::HostValue;
use crate::event::MergedEvent;
use crate::event::NativeEvent;
use crate::events::EventsModel;
use crate::events::NextEvent;

verus! {

/// One arrival at the merged consumption point, in readiness order: a native
/// event from the dataflow runtime, or an item from a merged external stream.
#[derive(Clone, Debug, PartialEq, Eq)]
pub enum Arrival {
    Native(NativeEvent),
    External(HostValue),
}

/// The uniformly tagged item an arrival contributes to the merged stream.
pub open spec fn arrival_item(a: Arrival) -> MergedEvent<HostValue> {
    match a {
        Arrival::Native(e) => MergedEvent::Dora(e),
        Arrival::External(x) => MergedEvent::External(x),
    }
}

/// The state after one arrival is delivered.
pub open spec fn apply_arrival(m: EventsModel, a: Arrival) -> EventsModel {
    match a {
        Arrival::Native(e) => m.push_native(e),
        Arrival::External(x) => m.push_external(x),
    }
}

/// The state after a sequence of arrivals is delivered, oldest first.
pub open spec fn apply_arrivals(m: EventsModel, arr: Seq<Arrival>) -> EventsModel
    decreases arr.len(),
{
    if arr.len() == 0 {
        m
    } else {
        apply_arrivals(apply_arrival(m, arr[0]), arr.drop_first())
    }
}

/// Merge fairness and order preservation: whatever interleaving of native
/// events and external items becomes ready, the merged stream holds exactly
/// the items already pending followed by the arrivals in readiness order,
/// each under its origin tag — no item is dropped, duplicated or reordered
/// relative to items of the same source — and no producer's liveness is
/// touched by deliveries.
pub proof fn lemma_arrival_order_preserved(m: EventsModel, arr: Seq<Arrival>)
    ensures
        apply_arrivals(m, arr).queued == m.queued + arr.map(|i: int, a: Arrival| arrival_item(a)),
        apply_arrivals(m, arr).native_open == m.native_open,
        apply_arrivals(m, arr).externals_open == m.externals_open,
        apply_arrivals(m, arr).merged == m.merged,
    decreases arr.len(),
{
    let tags = arr.map(|i: int, a: Arrival| arrival_item(a));
    if arr.len() == 0 {
        assert(m.queued + tags =~= m.queued);
    } else {
        let m1 = apply_arrival(m, arr[0]);
        let rest = arr.drop_first();
        let rtags = rest.map(|i: int, a: Arrival| arrival_item(a));
        lemma_arrival_order_preserved(m1, rest);
        assert(m1.queued == m.queued.push(arrival_item(arr[0])));
        assert(m.queued.push(arrival_item(arr[0])) + rtags =~= m.queued + tags);
    }
}

/// The state after a number of receive decisions.
pub open spec fn recv_n(m: EventsModel, n: nat) -> EventsModel
    decreases n,
{
    if n == 0 {
        m
    } else {
        recv_n(m.recv().0, (n - 1) as nat)
    }
}

/// End-of-stream idempotence: once all producers are exhausted, the state
/// never changes again and every subsequent receive decision — the first and
/// each one after any number of further receives — yields the same terminal
/// signal; a closed stream is never resurrected.
pub proof fn lemma_end_of_stream_idempotent(m: EventsModel, n: nat)
    requires
        m.exhausted(),
    ensures
        recv_n(m, n) == m,
        recv_n(m, n).recv().1 == NextEvent::EndOfStream,
    decreases n,
{
    if n > 0 {
        assert(m.recv().0 == m);
        lemma_end_of_stream_idempotent(m, (n - 1) as nat);
        assert(recv_n(m.recv().0, (n - 1) as nat) == m);
    }
}

/// Swap safety: a merge performed while events are pending keeps every
/// pending event — the swap drops and duplicates nothing — and a receive
/// issued right after the swap still yields the oldest pending event, before
/// any external item injected after the merge.
pub proof fn lemma_swap_preserves_pending(m: EventsModel, x: HostValue)
    ensures
        m.merge().queued == m.queued,
        m.queued.len() > 0 ==> m.merge().recv().1 == NextEvent::Event(m.queued[0]),
        m.queued.len() > 0 ==> m.merge().push_external(x).recv().1 == NextEvent::Event(
            m.queued[0],
        ),
{
}

/// Merging an external stream that never produces an item is observably a
/// no-op: once that stream is exhausted, the pending items, the native
/// liveness and the count of open external producers are exactly those of
/// the unmerged source.
pub proof fn lemma_merge_of_empty_stream_is_noop(m: EventsModel)
    ensures
        m.merge().close_external().queued == m.queued,
        m.merge().close_external().native_open == m.native_open,
        m.merge().close_external().externals_open == m.externals_open,
{
}

/// Flatten idempotence under repeated merge: merging one external stream and
/// later another leaves the consumption point with exactly the items that
/// merging a single combined stream up front would leave, for every
/// interleaving of arrivals — repeated merges are observably flat.
pub proof fn lemma_repeated_merge_flat(m: EventsModel, arr: Seq<Arrival>)
    ensures
        apply_arrivals(m.merge().merge(), arr).queued == apply_arrivals(m.merge(), arr).queued,
{
    lemma_arrival_order_preserved(m.merge().merge(), arr);
    lemma_arrival_order_preserved(m.merge(), arr);
}

} // verus!
