//! The table of outstanding requests.
//!
//! Every fetch that was issued and not yet answered has one entry here: the
//! handle that travels with the request, and the sink that receives the
//! answer. The table and its counter belong to one execution context; an
//! answer produced elsewhere reaches it as a [`CompletionMessage`] that the
//! owning context hands to [`PendingRequests::complete`].

use vstd::prelude::*;
use std::collections::HashMap;
use crate::error::NativeExtensionsResult;
use crate::value::Value;

verus! {

/// The first handle that a fresh table gives out.
pub const FIRST_HANDLE: i64 = 1;

/// The answer to one request, on its way to the table: the handle that the
/// request was issued under and the decoded outcome.
pub struct CompletionMessage {
    pub handle: i64,
    pub result: NativeExtensionsResult<Value>,
}

/// A sink taken out of the table together with the outcome that it is to
/// receive. Whoever gets a delivery completes the sink with the result.
pub struct Delivery<S> {
    pub sink: S,
    pub result: NativeExtensionsResult<Value>,
}

/// Outstanding requests by handle, with the counter that handles come from.
pub struct PendingRequests<S> {
    next_handle: i64,
    sinks: HashMap<i64, S>,
}

impl<S> PendingRequests<S> {
    /// The handle that the next allocation returns.
    pub closed spec fn next(&self) -> int {
        self.next_handle as int
    }

    /// The sinks that wait for an answer, by handle.
    pub closed spec fn entries(&self) -> Map<i64, S> {
        self.sinks@
    }

    /// Every handle in the table was given out by the counter, which starts
    /// at [`FIRST_HANDLE`] and only grows.
    pub open spec fn wf(&self) -> bool {
        &&& FIRST_HANDLE <= self.next() <= i64::MAX
        &&& self.entries().dom().finite()
        &&& forall|h: i64| #[trigger]
            self.entries().contains_key(h) ==> FIRST_HANDLE <= h < self.next()
    }

    /// Whether the counter can still give out a handle.
    pub open spec fn spec_has_free_handle(&self) -> bool {
        self.next() < i64::MAX
    }

    /// An empty table whose counter stands at [`FIRST_HANDLE`].
    pub fn new() -> (table: Self)
        ensures
            table.wf(),
            table.next() == FIRST_HANDLE,
            table.entries() == Map::<i64, S>::empty(),
    {
        PendingRequests { next_handle: FIRST_HANDLE, sinks: HashMap::new() }
    }

    /// Whether the counter can still give out a handle.
    #[verifier::when_used_as_spec(spec_has_free_handle)]
    pub fn has_free_handle(&self) -> (b: bool)
        ensures
            b == self.spec_has_free_handle(),
    {
        self.next_handle < i64::MAX
    }

    /// The number of outstanding requests.
    pub fn len(&self) -> (n: usize)
        requires
            self.wf(),
        ensures
            n == self.entries().len(),
    {
        broadcast use vstd::std_specs::hash::group_hash_axioms;

        self.sinks.len()
    }

    /// Whether no request is outstanding.
    pub fn is_empty(&self) -> (b: bool)
        requires
            self.wf(),
        ensures
            b == (self.entries() == Map::<i64, S>::empty()),
    {
        broadcast use vstd::std_specs::hash::group_hash_axioms;

        let n = self.sinks.len();
        proof {
            if n == 0 {
                assert(self.entries().dom() =~= Set::<i64>::empty());
                assert(self.entries() =~= Map::<i64, S>::empty());
            }
        }
        n == 0
    }

    /// Whether a request is outstanding under `handle`.
    pub fn is_pending(&self, handle: i64) -> (b: bool)
        ensures
            b == self.entries().contains_key(handle),
    {
        broadcast use vstd::std_specs::hash::group_hash_axioms;

        self.sinks.contains_key(&handle)
    }

    /// Takes the next handle from the counter. The handle is not in the
    /// table, and is larger than every handle given out before.
    pub fn allocate_handle(&mut self) -> (handle: i64)
        requires
            old(self).wf(),
            old(self).spec_has_free_handle(),
        ensures
            final(self).wf(),
            handle == old(self).next(),
            final(self).next() == old(self).next() + 1,
            final(self).entries() == old(self).entries(),
            !final(self).entries().contains_key(handle),
    {
        let handle = self.next_handle;
        self.next_handle = handle + 1;
        handle
    }

    /// Enters `sink` under `handle`, which the counter gave out and which is
    /// not in the table.
    pub fn register(&mut self, handle: i64, sink: S)
        requires
            old(self).wf(),
            FIRST_HANDLE <= handle < old(self).next(),
            !old(self).entries().contains_key(handle),
        ensures
            final(self).wf(),
            final(self).next() == old(self).next(),
            final(self).entries() == old(self).entries().insert(handle, sink),
    {
        broadcast use vstd::std_specs::hash::group_hash_axioms;

        self.sinks.insert(handle, sink);
    }

    /// Enters `sink` under the counter's next handle and returns that
    /// handle: what a request does before its foreign call is made.
    pub fn issue(&mut self, sink: S) -> (handle: i64)
        requires
            old(self).wf(),
            old(self).spec_has_free_handle(),
        ensures
            final(self).wf(),
            handle == old(self).next(),
            final(self).next() == old(self).next() + 1,
            !old(self).entries().contains_key(handle),
            final(self).entries() == old(self).entries().insert(handle, sink),
    {
        let handle = self.allocate_handle();
        self.register(handle, sink);
        handle
    }

    /// Takes the entry under `handle` out of the table, if there is one, and
    /// returns its sink. Leaves the table as it is where there is none.
    pub fn withdraw(&mut self, handle: i64) -> (sink: Option<S>)
        requires
            old(self).wf(),
        ensures
            final(self).wf(),
            final(self).next() == old(self).next(),
            final(self).entries() == old(self).entries().remove(handle),
            sink == spec_lookup(old(self).entries(), handle),
    {
        broadcast use vstd::std_specs::hash::group_hash_axioms;

        self.sinks.remove(&handle)
    }

    /// Processes the answer to a request. Where a request is outstanding
    /// under the message's handle, its entry leaves the table and its sink
    /// comes back with the message's result. An answer for a handle that is
    /// not in the table, because it never was or because it was answered
    /// before, changes nothing and delivers nothing.
    pub fn complete(&mut self, message: CompletionMessage) -> (delivery: Option<Delivery<S>>)
        requires
            old(self).wf(),
        ensures
            final(self).wf(),
            final(self).next() == old(self).next(),
            final(self).entries() == old(self).entries().remove(message.handle),
            delivery == spec_delivery(old(self).entries(), message),
            !old(self).entries().contains_key(message.handle) ==> delivery is None
                && final(self).entries() == old(self).entries(),
    {
        proof {
            if !old(self).entries().contains_key(message.handle) {
                assert(old(self).entries().remove(message.handle) =~= old(self).entries());
            }
        }
        match self.withdraw(message.handle) {
            Some(sink) => Some(Delivery { sink, result: message.result }),
            None => None,
        }
    }
}

/// The sink that waits under `handle`, if any.
pub open spec fn spec_lookup<S>(entries: Map<i64, S>, handle: i64) -> Option<S> {
    if entries.contains_key(handle) {
        Some(entries[handle])
    } else {
        None
    }
}

/// What processing `message` delivers, given the table's entries.
pub open spec fn spec_delivery<S>(entries: Map<i64, S>, message: CompletionMessage) -> Option<
    Delivery<S>,
> {
    match spec_lookup(entries, message.handle) {
        Some(sink) => Some(Delivery { sink, result: message.result }),
        None => None,
    }
}

/// The handle of the request at position `i` of a run of requests that
/// starts with the counter at `next`.
pub open spec fn handle_of_request(next: int, i: int) -> i64 {
    (next + i) as i64
}

/// The entries after one request for each of `sinks`, made in order from a
/// table that holds `entries` and whose counter stands at `next`.
pub open spec fn entries_after_requests<S>(entries: Map<i64, S>, next: int, sinks: Seq<S>) -> Map<
    i64,
    S,
>
    decreases sinks.len(),
{
    if sinks.len() == 0 {
        entries
    } else {
        entries_after_requests(entries, next, sinks.drop_last()).insert(
            handle_of_request(next, sinks.len() - 1),
            sinks.last(),
        )
    }
}

/// The entries after an answer for each of `handles` was processed, in order.
pub open spec fn entries_after_completions<S>(entries: Map<i64, S>, handles: Seq<i64>) -> Map<
    i64,
    S,
>
    decreases handles.len(),
{
    if handles.len() == 0 {
        entries
    } else {
        entries_after_completions(entries, handles.drop_last()).remove(handles.last())
    }
}

/// The sink that the answer at position `k` of `handles` is delivered to,
/// where the answers are processed in order on a table that holds `entries`.
pub open spec fn sink_reached<S>(entries: Map<i64, S>, handles: Seq<i64>, k: int) -> Option<S> {
    spec_lookup(entries_after_completions(entries, handles.take(k)), handles[k])
}

/// Requests made one after another get the handles `next`, `next + 1`, and
/// so on, as [`handle_of_request`] says: no two of them are equal, none was in the table before, each
/// stands for the sink of its own request, and what was in the table stays.
pub proof fn law_requests_get_distinct_handles<S>(table: PendingRequests<S>, sinks: Seq<S>)
    requires
        table.wf(),
        table.next() + sinks.len() <= i64::MAX,
    ensures
        forall|i: int, j: int|
            0 <= i < j < sinks.len() ==> #[trigger] handle_of_request(table.next(), i)
                != #[trigger] handle_of_request(table.next(), j),
        forall|i: int|
            0 <= i < sinks.len() ==> !table.entries().contains_key(
                #[trigger] handle_of_request(table.next(), i),
            ),
        forall|i: int|
            0 <= i < sinks.len() ==> spec_lookup(
                entries_after_requests(table.entries(), table.next(), sinks),
                #[trigger] handle_of_request(table.next(), i),
            ) == Some(sinks[i]),
        forall|h: i64| #[trigger]
            table.entries().contains_key(h) ==> spec_lookup(
                entries_after_requests(table.entries(), table.next(), sinks),
                h,
            ) == Some(table.entries()[h]),
    decreases sinks.len(),
{
    if sinks.len() > 0 {
        let front = sinks.drop_last();
        law_requests_get_distinct_handles(table, front);
        let last = handle_of_request(table.next(), sinks.len() - 1);
        assert forall|i: int| 0 <= i < sinks.len() implies spec_lookup(
            entries_after_requests(table.entries(), table.next(), sinks),
            #[trigger] handle_of_request(table.next(), i),
        ) == Some(sinks[i]) by {
            if i < sinks.len() - 1 {
                assert(front[i] == sinks[i]);
                assert(handle_of_request(table.next(), i) != last);
            }
        }
    }
}

/// An entry is in the table after a run of answers exactly if it was there
/// before and none of the answers named its handle; it then holds the sink
/// it held before.
pub proof fn lemma_entries_after_completions<S>(entries: Map<i64, S>, handles: Seq<i64>, h: i64)
    ensures
        entries_after_completions(entries, handles).contains_key(h) <==> entries.contains_key(h)
            && !handles.contains(h),
        entries_after_completions(entries, handles).contains_key(h) ==> entries_after_completions(
            entries,
            handles,
        )[h] == entries[h],
    decreases handles.len(),
{
    if handles.len() > 0 {
        let front = handles.drop_last();
        lemma_entries_after_completions(entries, front, h);
        if handles.contains(h) {
            let i = choose|i: int| 0 <= i < handles.len() && handles[i] == h;
            if i < handles.len() - 1 {
                assert(front[i] == h);
            }
        }
        if front.contains(h) {
            let i = choose|i: int| 0 <= i < front.len() && front[i] == h;
            assert(handles[i] == h);
        }
    }
}

/// In whatever order answers arrive, each is delivered to the sink that was
/// registered under its own handle, and only the first answer for a handle
/// is delivered at all: an answer for a handle that is not in the table, or
/// that an earlier answer named, reaches no sink.
pub proof fn law_answer_reaches_its_own_sink<S>(entries: Map<i64, S>, handles: Seq<i64>, k: int)
    requires
        0 <= k < handles.len(),
    ensures
        sink_reached(entries, handles, k) == if entries.contains_key(handles[k])
            && !handles.take(k).contains(handles[k]) {
            Some(entries[handles[k]])
        } else {
            None
        },
{
    lemma_entries_after_completions(entries, handles.take(k), handles[k]);
}

/// An answer for a handle that is not in the table leaves every entry as it
/// was, so the answers that follow are delivered as if it had never come.
pub proof fn law_unmatched_answer_changes_nothing<S>(entries: Map<i64, S>, handle: i64)
    requires
        !entries.contains_key(handle),
    ensures
        entries_after_completions(entries, seq![handle]) == entries,
        sink_reached(entries, seq![handle], 0) == None::<S>,
{
    let handles = seq![handle];
    assert(handles.drop_last() =~= Seq::<i64>::empty());
    assert(entries_after_completions(entries, handles.drop_last()) == entries);
    assert(entries.remove(handle) =~= entries);
    assert(handles.take(0) =~= Seq::<i64>::empty());
}

/// A second answer for the same handle reaches no sink and leaves the table
/// as the first answer left it.
pub proof fn law_repeated_answer_is_ignored<S>(entries: Map<i64, S>, handle: i64)
    ensures
        sink_reached(entries, seq![handle, handle], 1) == None::<S>,
        entries_after_completions(entries, seq![handle, handle]) == entries_after_completions(
            entries,
            seq![handle],
        ),
{
    let twice = seq![handle, handle];
    let once = seq![handle];
    assert(twice.take(1) =~= once);
    assert(twice.drop_last() =~= once);
    assert(once.drop_last() =~= Seq::<i64>::empty());
    assert(entries_after_completions(entries, once.drop_last()) == entries);
    assert(entries_after_completions(entries, once) == entries.remove(handle));
    assert(entries.remove(handle).remove(handle) =~= entries.remove(handle));
}

/// Requests are made for `sinks`, one after another, and answers then
/// arrive for `handles`, in any order and with any repetitions. The first
/// answer that names the handle of the request at position `i` is delivered
/// to the sink of that request.
pub proof fn law_answers_in_any_order<S>(
    table: PendingRequests<S>,
    sinks: Seq<S>,
    handles: Seq<i64>,
    i: int,
    k: int,
)
    requires
        table.wf(),
        table.next() + sinks.len() <= i64::MAX,
        0 <= i < sinks.len(),
        0 <= k < handles.len(),
        handles[k] == handle_of_request(table.next(), i),
        !handles.take(k).contains(handles[k]),
    ensures
        sink_reached(
            entries_after_requests(table.entries(), table.next(), sinks),
            handles,
            k,
        ) == Some(sinks[i]),
{
    law_requests_get_distinct_handles(table, sinks);
    let issued = entries_after_requests(table.entries(), table.next(), sinks);
    law_answer_reaches_its_own_sink(issued, handles, k);
}

} // verus!
