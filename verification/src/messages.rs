//! Transient, auto-expiring user-facing notices.
//!
//! Messages form a FIFO queue ordered by arrival. Only the front message is
//! ever inspected for expiry; each message waits its turn, front to back.
//! Timestamps are milliseconds of some monotonic clock that the surrounding
//! binary reads and passes in.
use vstd::prelude::*;

verus! {

/// How long a message stays on screen before it expires, in milliseconds.
pub const MESSAGE_TIMEOUT_MS: u64 = 3000;

/// One user-facing notice and the time it was queued.
pub struct Message {
    pub text: String,
    pub created_at: u64,
}

impl View for Message {
    type V = (Seq<char>, u64);

    open spec fn view(&self) -> (Seq<char>, u64) {
        (self.text@, self.created_at)
    }
}

/// FIFO queue of notices: new messages are appended at the back, and only the
/// front message can expire.
pub struct MessageQueue {
    items: Vec<Message>,
}

/// Whether the front of the abstract queue is due to expire at `now`.
pub open spec fn front_due(q: Seq<(Seq<char>, u64)>, now: u64, timeout_ms: u64) -> bool {
    q.len() > 0 && now >= q[0].1 + timeout_ms
}

/// The abstract queue after one expiry check: the front is removed exactly
/// when it is due; nothing else moves.
pub open spec fn spec_expire(q: Seq<(Seq<char>, u64)>, now: u64, timeout_ms: u64) -> Seq<
    (Seq<char>, u64),
> {
    if front_due(q, now, timeout_ms) {
        q.drop_first()
    } else {
        q
    }
}

/// Law: notices leave the queue in arrival order, one per check, each
/// waiting out its own timeout. With at least two notices queued, a check
/// at a time when the first has waited out the timeout but the second has
/// not removes exactly the first; a further check at that same time removes
/// nothing; and a check once the second has waited out the timeout removes
/// exactly the second.
pub proof fn lemma_expiry_in_arrival_order(
    q: Seq<(Seq<char>, u64)>,
    now1: u64,
    now2: u64,
    timeout_ms: u64,
)
    requires
        q.len() >= 2,
        now1 >= q[0].1 + timeout_ms,
        now1 < q[1].1 + timeout_ms,
        now2 >= q[1].1 + timeout_ms,
    ensures
        spec_expire(q, now1, timeout_ms) == q.drop_first(),
        spec_expire(q.drop_first(), now1, timeout_ms) == q.drop_first(),
        spec_expire(q.drop_first(), now2, timeout_ms) == q.drop_first().drop_first(),
{
    assert(q.drop_first()[0] == q[1]);
}

impl View for MessageQueue {
    type V = Seq<(Seq<char>, u64)>;

    closed spec fn view(&self) -> Seq<(Seq<char>, u64)> {
        self.items@.map_values(|m: Message| m@)
    }
}

impl MessageQueue {
    /// A fresh, empty queue.
    pub fn new() -> (q: Self)
        ensures
            q@ == Seq::<(Seq<char>, u64)>::empty(),
    {
        let q = MessageQueue { items: Vec::new() };
        proof {
            assert(q@ =~= Seq::<(Seq<char>, u64)>::empty());
        }
        q
    }

    /// Appends a notice at the back. Never fails and touches nothing else.
    pub fn push(&mut self, text: String, now: u64)
        ensures
            final(self)@ == old(self)@.push((text@, now)),
    {
        let ghost prev = self@;
        self.items.push(Message { text, created_at: now });
        proof {
            assert(self@ =~= prev.push((text@, now)));
        }
    }

    /// Removes the front notice if and only if it has waited at least
    /// `timeout_ms` by `now`. Later notices are never inspected.
    pub fn expire_if_due(&mut self, now: u64, timeout_ms: u64) -> (expired: bool)
        ensures
            expired == front_due(old(self)@, now, timeout_ms),
            final(self)@ == spec_expire(old(self)@, now, timeout_ms),
    {
        let ghost prev = self@;
        let due = if self.items.len() > 0 {
            let created = self.items[0].created_at;
            created <= now && now - created >= timeout_ms
        } else {
            false
        };
        if due {
            self.items.remove(0);
            proof {
                assert(self@ =~= prev.drop_first());
            }
        }
        due
    }

    /// The texts currently queued, front first; does not mutate the queue.
    pub fn snapshot(&self) -> (r: Vec<String>)
        ensures
            r@.len() == self@.len(),
            forall|i: int| 0 <= i < r@.len() ==> r@[i]@ == self@[i].0,
    {
        let mut r: Vec<String> = Vec::new();
        let mut i: usize = 0;
        while i < self.items.len()
            invariant
                i <= self.items.len(),
                r@.len() == i,
                forall|j: int| 0 <= j < i ==> r@[j]@ == self@[j].0,
            decreases self.items.len() - i,
        {
            r.push(self.items[i].text.clone());
            i = i + 1;
        }
        r
    }

    /// Empties the queue.
    pub fn clear(&mut self)
        ensures
            final(self)@ == Seq::<(Seq<char>, u64)>::empty(),
    {
        self.items.clear();
        proof {
            assert(self@ =~= Seq::<(Seq<char>, u64)>::empty());
        }
    }

    /// How many notices are pending.
    pub fn len(&self) -> (n: usize)
        ensures
            n == self@.len(),
    {
        self.items.len()
    }
}

} // verus!
