//! The load coordinator: it spawns one session per requested client,
//! collects their completion signals over a shared channel, and reports the
//! elapsed time once every requested client has completed its handshake.
//!
//! Only the count of signals matters. The coordinator keeps a
//! remaining-count that starts at the requested client count and goes down
//! by one per signal; it is done when the count reaches zero. A requested
//! count of zero is taken as immediately done: no session is spawned and a
//! near-zero elapsed time is reported.

use vstd::prelude::*;

verus! {

use crate::session::{completes_handshake, lemma_signal_iff_handshake, signal_count, Event, Phase};

/// The remaining-count after a sequence of completion signals has been
/// received, starting from a requested client count of `n`. Signals past
/// the `n`-th leave the count at zero.
pub open spec fn remaining_after(n: nat, sigs: Seq<usize>) -> nat
    decreases sigs.len(),
{
    if sigs.len() == 0 {
        n
    } else if remaining_after(n, sigs.drop_last()) == 0 {
        0
    } else {
        (remaining_after(n, sigs.drop_last()) - 1) as nat
    }
}

/// The remaining-count depends only on how many signals have arrived: it is
/// the requested count less the number of signals, bottoming out at zero.
/// In particular it reaches zero exactly at the `n`-th signal, never
/// before.
pub proof fn lemma_count_invariant(n: nat, sigs: Seq<usize>)
    ensures
        remaining_after(n, sigs) == (if sigs.len() >= n {
            0nat
        } else {
            (n - sigs.len()) as nat
        }),
    decreases sigs.len(),
{
    if sigs.len() > 0 {
        lemma_count_invariant(n, sigs.drop_last());
    }
}

/// The coordinator's progress is invariant to the order in which sessions
/// complete: two courses with the same number of signals leave the same
/// remaining-count, whichever sessions they came from and in whatever
/// order. Only the arrival of the last signal matters for when the
/// coordinator is done, hence for the elapsed time it reports.
pub proof fn lemma_order_independence(n: nat, a: Seq<usize>, b: Seq<usize>)
    requires
        a.len() == b.len(),
    ensures
        remaining_after(n, a) == remaining_after(n, b),
{
    lemma_count_invariant(n, a);
    lemma_count_invariant(n, b);
}

/// For any requested client count, if every spawned session completes its
/// handshake, each contributes exactly one completion signal, and the
/// coordinator — having received one signal per session — terminates:
/// after exactly one signal per requested client, never fewer and never
/// more than one from any session.
pub proof fn lemma_full_run_terminates(courses: Seq<Seq<Event>>, sigs: Seq<usize>)
    requires
        forall|i: int|
            0 <= i < courses.len() ==> completes_handshake(Phase::Delaying, courses[i]),
        sigs.len() == courses.len(),
    ensures
        forall|i: int| 0 <= i < courses.len() ==> signal_count(Phase::Delaying, courses[i]) == 1,
        remaining_after(courses.len(), sigs) == 0,
{
    assert forall|i: int|
        0 <= i < courses.len() implies signal_count(Phase::Delaying, courses[i]) == 1 by {
        lemma_signal_iff_handshake(Phase::Delaying, courses[i]);
    }
    lemma_count_invariant(courses.len(), sigs);
}

/// The coordinator's state: the requested client count, the remaining-count,
/// and (for specification only) the signals received so far.
pub struct Coordinator {
    /// How many client sessions were requested.
    pub client_count: usize,
    /// How many completion signals are still owed before the run is done.
    pub remaining: usize,
    /// The identifiers of the signals received so far, in arrival order.
    pub received: Ghost<Seq<usize>>,
}

impl Coordinator {
    /// The remaining-count is exactly what the received signals dictate.
    pub open spec fn wf(self) -> bool {
        self.remaining as nat == remaining_after(self.client_count as nat, self.received@)
    }

    /// A coordinator for `client_count` requested sessions, before any
    /// signal has arrived. With a count of zero it is done at once.
    pub fn new(client_count: usize) -> (c: Coordinator)
        ensures
            c.wf(),
            c.client_count == client_count,
            c.remaining == client_count,
            c.received@ == Seq::<usize>::empty(),
    {
        Coordinator { client_count, remaining: client_count, received: Ghost(Seq::empty()) }
    }

    /// Record one completion signal: the remaining-count goes down by one,
    /// and stays at zero once there.
    pub fn on_signal(&mut self, id: usize)
        requires
            old(self).wf(),
        ensures
            final(self).wf(),
            final(self).client_count == old(self).client_count,
            final(self).received@ == old(self).received@.push(id),
            old(self).remaining == 0 ==> final(self).remaining == 0,
            old(self).remaining > 0 ==> final(self).remaining == old(self).remaining - 1,
    {
        if self.remaining > 0 {
            self.remaining = self.remaining - 1;
        }
        proof {
            self.received@ = self.received@.push(id);
            assert(self.received@.drop_last() =~= old(self).received@);
        }
    }

    /// Whether every requested session has completed its handshake: true
    /// exactly when at least `client_count` completion signals have been
    /// received.
    pub fn is_done(&self) -> (r: bool)
        requires
            self.wf(),
        ensures
            r == (self.remaining == 0),
            r == (self.received@.len() >= self.client_count),
    {
        proof {
            lemma_count_invariant(self.client_count as nat, self.received@);
        }
        self.remaining == 0
    }
}

/// The elapsed wall-clock time between the start timestamp and the moment
/// the last owed completion signal arrived, in the clock's units.
pub fn elapsed_millis(start: u64, now: u64) -> (r: u64)
    requires
        start <= now,
    ensures
        r == now - start,
{
    now - start
}

} // verus!
