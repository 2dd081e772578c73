use vstd::prelude::*;

use crate::message::{is_error_message, is_error_text};

verus! {

/// Seconds between two reports of the counters.
pub const MONITOR_TICK_SECS: u64 = 5;

/// The pair of counters that every task shares: how many received messages
/// were successes and how many were errors.
#[derive(Debug)]
pub struct SharedState {
    pub success_count: u64,
    pub error_count: u64,
}

/// The counters after one more message: exactly one of them goes up by one,
/// the error counter where the text holds "error", else the success counter.
pub open spec fn count_message(c: (nat, nat), msg: Seq<char>) -> (nat, nat) {
    if is_error_text(msg) {
        (c.0, c.1 + 1)
    } else {
        (c.0 + 1, c.1)
    }
}

/// The counters after the messages `msgs`, consumed in that order.
pub open spec fn count_messages(c: (nat, nat), msgs: Seq<Seq<char>>) -> (nat, nat)
    decreases msgs.len(),
{
    if msgs.len() == 0 {
        c
    } else {
        count_message(count_messages(c, msgs.drop_last()), msgs.last())
    }
}

/// How many of `msgs` are classified as errors.
pub open spec fn errors_in(msgs: Seq<Seq<char>>) -> nat
    decreases msgs.len(),
{
    if msgs.len() == 0 {
        0
    } else {
        errors_in(msgs.drop_last()) + if is_error_text(msgs.last()) {
            1nat
        } else {
            0nat
        }
    }
}

/// How many of `msgs` are classified as successes.
pub open spec fn successes_in(msgs: Seq<Seq<char>>) -> nat
    decreases msgs.len(),
{
    if msgs.len() == 0 {
        0
    } else {
        successes_in(msgs.drop_last()) + if is_error_text(msgs.last()) {
            0nat
        } else {
            1nat
        }
    }
}

/// After any sequence of consumed messages, the error counter has grown by the
/// number of error messages and the success counter by the number of the
/// others; each message is one or the other, so the two counters together
/// have grown by the number of messages.
pub proof fn lemma_counts_cover_every_message(c: (nat, nat), msgs: Seq<Seq<char>>)
    ensures
        count_messages(c, msgs) == (c.0 + successes_in(msgs), c.1 + errors_in(msgs)),
        successes_in(msgs) + errors_in(msgs) == msgs.len(),
        count_messages(c, msgs).0 + count_messages(c, msgs).1 == c.0 + c.1 + msgs.len(),
    decreases msgs.len(),
{
    if msgs.len() > 0 {
        lemma_counts_cover_every_message(c, msgs.drop_last());
    }
}

proof fn lemma_counts_split(a: Seq<Seq<char>>, b: Seq<Seq<char>>)
    ensures
        errors_in(a + b) == errors_in(a) + errors_in(b),
        successes_in(a + b) == successes_in(a) + successes_in(b),
    decreases b.len(),
{
    if b.len() == 0 {
        assert(a + b =~= a);
    } else {
        lemma_counts_split(a, b.drop_last());
        assert((a + b).drop_last() =~= a + b.drop_last());
    }
}

proof fn lemma_counts_follow_multiset(m1: Seq<Seq<char>>, m2: Seq<Seq<char>>)
    requires
        m1.to_multiset() == m2.to_multiset(),
    ensures
        errors_in(m1) == errors_in(m2),
        successes_in(m1) == successes_in(m2),
    decreases m1.len(),
{
    m1.to_multiset_ensures();
    m2.to_multiset_ensures();
    if m1.len() == 0 {
        assert(m2.len() == 0);
    } else {
        let x = m1.last();
        let rest = m1.drop_last();
        assert(rest.push(x) =~= m1);
        rest.to_multiset_ensures();
        assert(m2.to_multiset().count(x) > 0);
        assert(m2.contains(x));
        let j = choose|j: int| 0 <= j < m2.len() && m2[j] == x;
        let others = m2.remove(j);
        assert(others.to_multiset() =~= rest.to_multiset());
        lemma_counts_follow_multiset(rest, others);
        let front = m2.take(j);
        let back = m2.skip(j + 1);
        assert(others =~= front + back);
        assert(m2 =~= front + (seq![x] + back));
        lemma_counts_split(front, back);
        lemma_counts_split(front, seq![x] + back);
        lemma_counts_split(seq![x], back);
        assert(seq![x].drop_last() =~= Seq::<Seq<char>>::empty());
        assert(seq![x].last() == x);
        assert(errors_in(Seq::<Seq<char>>::empty()) == 0);
        assert(successes_in(Seq::<Seq<char>>::empty()) == 0);
    }
}

/// The counters depend on which messages were consumed and not on the order
/// in which the dispatch paths took the lock: any two orders of the same
/// messages leave the same counts.
pub proof fn lemma_counts_ignore_order(c: (nat, nat), m1: Seq<Seq<char>>, m2: Seq<Seq<char>>)
    requires
        m1.to_multiset() == m2.to_multiset(),
    ensures
        count_messages(c, m1) == count_messages(c, m2),
{
    lemma_counts_follow_multiset(m1, m2);
    lemma_counts_cover_every_message(c, m1);
    lemma_counts_cover_every_message(c, m2);
}

impl View for SharedState {
    type V = (nat, nat);

    /// The success counter, then the error counter.
    open spec fn view(&self) -> (nat, nat) {
        (self.success_count as nat, self.error_count as nat)
    }
}

impl SharedState {
    /// Both counters at zero, as at start-up.
    pub fn new() -> (r: SharedState)
        ensures
            r@ == (0nat, 0nat),
    {
        SharedState { success_count: 0, error_count: 0 }
    }

    /// The number of messages counted so far.
    pub open spec fn total(&self) -> nat {
        self.success_count as nat + self.error_count as nat
    }

    /// Whether one more message can be counted without a counter passing `u64::MAX`.
    pub fn can_record(&self) -> (r: bool)
        ensures
            r == (self.total() < u64::MAX),
    {
        self.success_count < u64::MAX - self.error_count
    }

    /// Counts the received message `msg` and tells whether it was an error.
    pub fn record(&mut self, msg: &str) -> (is_error: bool)
        requires
            old(self).total() < u64::MAX,
        ensures
            is_error == is_error_text(msg@),
            final(self)@ == count_message(old(self)@, msg@),
    {
        let is_error = is_error_message(msg);
        if is_error {
            self.error_count = self.error_count + 1;
        } else {
            self.success_count = self.success_count + 1;
        }
        is_error
    }
}

} // verus!
