//! The request/response multiplexer of the player's IPC connection.
//!
//! Every command carries a fresh request id and registers a pending entry
//! before it goes out; the reader resolves the entry when the matching
//! response arrives. The surrounding process runs the socket and the
//! timers; this state machine decides, and its contracts pin down the two
//! teardown guarantees: a send against a closed connection is refused at
//! once instead of waiting for a timeout, and closing drains every pending
//! entry so that no caller is left waiting.

use vstd::prelude::*;

verus! {

/// Counter handing out request ids, increasing by one per command.
#[derive(Debug, Clone, PartialEq)]
pub struct RequestIdCounter {
    pub next: i64,
}

impl RequestIdCounter {
    /// A fresh counter; the first id handed out is 1.
    pub fn new() -> (r: RequestIdCounter)
        ensures
            r.next == 1,
    {
        RequestIdCounter { next: 1 }
    }
}

/// Hand out the next request id and advance the counter.
pub fn next_request_id(counter: &mut RequestIdCounter) -> (r: i64)
    requires
        old(counter).next < i64::MAX,
    ensures
        r == old(counter).next,
        final(counter).next == old(counter).next + 1,
{
    let id = counter.next;
    counter.next = counter.next + 1;
    id
}

/// The shared state of one IPC connection: the closed flag and the set of
/// request ids still waiting for a response, in registration order.
#[derive(Debug, Clone, PartialEq)]
pub struct IpcCore {
    pub closed: bool,
    pub pending: Vec<i64>,
}

/// No request id is registered twice.
pub open spec fn pending_distinct(pending: Seq<i64>) -> bool {
    forall|i: int, j: int| 0 <= i < j < pending.len() ==> pending[i] != pending[j]
}

/// The sequence with every occurrence of `id` removed.
pub open spec fn remove_id(pending: Seq<i64>, id: i64) -> Seq<i64> {
    pending.filter(|x: i64| x != id)
}

impl IpcCore {
    /// A fresh connection: open, with nothing pending.
    pub fn new() -> (r: IpcCore)
        ensures
            !r.closed,
            r.pending@.len() == 0,
            pending_distinct(r.pending@),
    {
        IpcCore { closed: false, pending: Vec::new() }
    }

    /// Whether the connection is closed.
    pub fn is_closed(&self) -> (r: bool)
        ensures
            r == self.closed,
    {
        self.closed
    }

    /// Register a send. On an open connection the id becomes pending and
    /// the command may go out; on a closed connection nothing changes and
    /// the caller fails with `Disconnected` at once — it never waits.
    pub fn register_send(&mut self, request_id: i64) -> (admitted: bool)
        requires
            !old(self).pending@.contains(request_id),
            pending_distinct(old(self).pending@),
        ensures
            pending_distinct(final(self).pending@),
            final(self).closed == old(self).closed,
            admitted == !old(self).closed,
            old(self).closed ==> final(self).pending@ == old(self).pending@,
            !old(self).closed ==> final(self).pending@ == old(self).pending@.push(request_id),
    {
        if self.closed {
            return false;
        }
        self.pending.push(request_id);
        true
    }

    /// Resolve a pending entry: a response with this request id arrived, or
    /// the caller's timer ran out. Returns whether the entry was pending.
    pub fn resolve(&mut self, request_id: i64) -> (found: bool)
        requires
            pending_distinct(old(self).pending@),
        ensures
            pending_distinct(final(self).pending@),
            final(self).closed == old(self).closed,
            found == old(self).pending@.contains(request_id),
            final(self).pending@ == remove_id(old(self).pending@, request_id),
    {
        let mut i: usize = 0;
        while i < self.pending.len()
            invariant
                0 <= i <= self.pending@.len(),
                self.pending@ == old(self).pending@,
                self.closed == old(self).closed,
                pending_distinct(old(self).pending@),
                forall|j: int| 0 <= j < i ==> old(self).pending@[j] != request_id,
            decreases self.pending@.len() - i,
        {
            if self.pending[i] == request_id {
                let ghost before = self.pending@;
                self.pending.remove(i);
                proof {
                    assert(before[i as int] == request_id);
                    assert(before.contains(request_id));
                    lemma_remove_is_filter(before, request_id, i as int);
                }
                return true;
            }
            i += 1;
        }
        proof {
            assert(!old(self).pending@.contains(request_id)) by {
                if old(self).pending@.contains(request_id) {
                    let w = choose|w: int|
                        0 <= w < old(self).pending@.len() && old(self).pending@[w] == request_id;
                    assert(old(self).pending@[w] != request_id);
                }
            }
            lemma_filter_no_match(old(self).pending@, request_id);
        }
        false
    }

    /// Close the connection: set the closed flag and drain every pending
    /// entry. The drained ids are returned so that each waiting caller can
    /// be completed with `Disconnected`; afterwards nothing is pending, so
    /// no caller can be left waiting for a response that cannot come.
    pub fn close(&mut self) -> (drained: Vec<i64>)
        ensures
            final(self).closed,
            final(self).pending@.len() == 0,
            drained@ == old(self).pending@,
    {
        self.closed = true;
        let mut drained: Vec<i64> = Vec::new();
        std::mem::swap(&mut drained, &mut self.pending);
        drained
    }
}

/// A resolved entry is gone for good: after a request id is removed from
/// the pending set — by its response, its timeout, or the drain on close —
/// no entry with that id remains, so no send can be completed twice and no
/// completed send is still waited on.
pub proof fn lemma_resolved_entry_is_gone(pending: Seq<i64>, id: i64)
    ensures
        !remove_id(pending, id).contains(id),
    decreases pending.len(),
{
    reveal_with_fuel(Seq::<i64>::filter, 2);
    if pending.len() > 0 {
        let front = pending.drop_last();
        let last = pending.last();
        lemma_resolved_entry_is_gone(front, id);
        if last == id {
            assert(remove_id(pending, id) == remove_id(front, id));
        } else {
            assert(remove_id(pending, id) == remove_id(front, id).push(last));
            if remove_id(pending, id).contains(id) {
                let w = choose|w: int|
                    0 <= w < remove_id(pending, id).len() && remove_id(pending, id)[w] == id;
                assert(w < remove_id(front, id).len());
                assert(remove_id(front, id).contains(id));
            }
        }
    } else {
        assert(remove_id(pending, id) =~= pending);
    }
}

proof fn lemma_remove_is_filter(pending: Seq<i64>, id: i64, at: int)
    requires
        pending_distinct(pending),
        0 <= at < pending.len(),
        pending[at] == id,
    ensures
        pending.remove(at) == remove_id(pending, id),
    decreases pending.len(),
{
    if pending.len() > 0 {
        let last = pending.last();
        let front = pending.drop_last();
        reveal_with_fuel(Seq::<i64>::filter, 2);
        if at == pending.len() - 1 {
            assert(last == id);
            assert(!front.contains(id)) by {
                if front.contains(id) {
                    let w = choose|w: int| 0 <= w < front.len() && front[w] == id;
                    assert(pending[w] == id && pending[at] == id && w < at);
                }
            }
            lemma_filter_no_match(front, id);
            assert(remove_id(pending, id) == remove_id(front, id));
            assert(pending.remove(at) =~= front);
        } else {
            assert(last != id) by {
                assert(pending[at] == id && pending[pending.len() - 1] == last);
            }
            assert(pending_distinct(front)) by {
                assert(forall|i: int, j: int|
                    0 <= i < j < front.len() ==> pending[i] == front[i] && pending[j] == front[j]);
            }
            assert(front[at] == id);
            lemma_remove_is_filter(front, id, at);
            assert(remove_id(pending, id) == remove_id(front, id).push(last));
            assert(pending.remove(at) =~= front.remove(at).push(last));
        }
    }
}

proof fn lemma_filter_no_match(pending: Seq<i64>, id: i64)
    requires
        !pending.contains(id),
    ensures
        remove_id(pending, id) == pending,
    decreases pending.len(),
{
    reveal_with_fuel(Seq::<i64>::filter, 2);
    if pending.len() > 0 {
        let last = pending.last();
        let front = pending.drop_last();
        assert(forall|i: int| 0 <= i < front.len() ==> front[i] == pending[i]);
        assert(!front.contains(id)) by {
            if front.contains(id) {
                let w = choose|w: int| 0 <= w < front.len() && front[w] == id;
                assert(pending[w] == id);
            }
        }
        lemma_filter_no_match(front, id);
        assert(last != id) by {
            assert(pending[pending.len() - 1] == last);
            if last == id {
                assert(pending.contains(id));
            }
        }
        assert(remove_id(pending, id) == remove_id(front, id).push(last));
        assert(remove_id(pending, id) =~= pending);
    } else {
        assert(remove_id(pending, id) =~= pending);
    }
}

} // verus!
