//! The registry of upstream liveness.
//!
//! Upstreams are known by their index in the configured list. The registry
//! keeps one liveness flag per index and the number of flags that are set.

use vstd::prelude::*;

verus! {

/// The number of `true` flags in `flags`.
pub open spec fn count_alive(flags: Seq<bool>) -> nat
    decreases flags.len(),
{
    if flags.len() == 0 {
        0
    } else {
        count_alive(flags.drop_last()) + if flags.last() {
            1nat
        } else {
            0nat
        }
    }
}

/// A sequence of `n` flags, all set.
pub open spec fn all_alive(n: nat) -> Seq<bool> {
    Seq::new(n, |i: int| true)
}

/// There are never more live flags than flags.
pub proof fn lemma_count_alive_bound(flags: Seq<bool>)
    ensures
        count_alive(flags) <= flags.len(),
    decreases flags.len(),
{
    if flags.len() > 0 {
        lemma_count_alive_bound(flags.drop_last());
    }
}

/// Overwriting one flag changes the count by exactly that flag's change.
pub proof fn lemma_count_alive_update(flags: Seq<bool>, idx: int, alive: bool)
    requires
        0 <= idx < flags.len(),
    ensures
        count_alive(flags.update(idx, alive)) + (if flags[idx] { 1int } else { 0int })
            == count_alive(flags) + (if alive { 1int } else { 0int }),
    decreases flags.len(),
{
    let updated = flags.update(idx, alive);
    if idx == flags.len() - 1 {
        assert(updated.drop_last() =~= flags.drop_last());
    } else {
        assert(updated.drop_last() =~= flags.drop_last().update(idx, alive));
        lemma_count_alive_update(flags.drop_last(), idx, alive);
    }
}

/// The count is zero exactly when no flag is set.
pub proof fn lemma_count_alive_zero(flags: Seq<bool>)
    ensures
        count_alive(flags) == 0 <==> forall|i: int| 0 <= i < flags.len() ==> !flags[i],
    decreases flags.len(),
{
    if flags.len() > 0 {
        let front = flags.drop_last();
        lemma_count_alive_zero(front);
        if count_alive(flags) == 0 {
            assert forall|i: int| 0 <= i < flags.len() implies !flags[i] by {
                if i < front.len() {
                    assert(!front[i]);
                }
            }
        }
        if forall|i: int| 0 <= i < flags.len() ==> !flags[i] {
            assert forall|i: int| 0 <= i < front.len() implies !front[i] by {
                assert(!flags[i]);
            }
        }
    }
}

/// The count equals the length exactly when every flag is set.
pub proof fn lemma_count_alive_full(flags: Seq<bool>)
    ensures
        count_alive(flags) == flags.len() <==> forall|i: int| 0 <= i < flags.len() ==> flags[i],
    decreases flags.len(),
{
    if flags.len() > 0 {
        let front = flags.drop_last();
        lemma_count_alive_full(front);
        lemma_count_alive_bound(front);
        if count_alive(flags) == flags.len() {
            assert forall|i: int| 0 <= i < flags.len() implies flags[i] by {
                if i < front.len() {
                    assert(front[i]);
                }
            }
        }
        if forall|i: int| 0 <= i < flags.len() ==> flags[i] {
            assert forall|i: int| 0 <= i < front.len() implies front[i] by {
                assert(flags[i]);
            }
        }
    }
}

/// Marking an upstream dead shows it dead, and marking it alive again shows
/// it alive; no other upstream is touched by either.
pub proof fn lemma_dead_then_alive(flags: Seq<bool>, idx: int)
    requires
        0 <= idx < flags.len(),
    ensures
        !flags.update(idx, false)[idx],
        flags.update(idx, false).update(idx, true)[idx],
        flags.update(idx, false).update(idx, true) == flags.update(idx, true),
        forall|j: int|
            0 <= j < flags.len() && j != idx ==> flags.update(idx, false).update(idx, true)[j]
                == flags[j],
{
    assert(flags.update(idx, false).update(idx, true) =~= flags.update(idx, true));
}

/// Marking an upstream a second time changes nothing.
pub proof fn lemma_mark_twice(flags: Seq<bool>, idx: int, alive: bool)
    requires
        0 <= idx < flags.len(),
    ensures
        flags.update(idx, alive).update(idx, alive) == flags.update(idx, alive),
        flags[idx] == alive ==> flags.update(idx, alive) == flags,
{
    assert(flags.update(idx, alive).update(idx, alive) =~= flags.update(idx, alive));
    if flags[idx] == alive {
        assert(flags.update(idx, alive) =~= flags);
    }
}

/// As soon as a single upstream is alive, not all are dead.
pub proof fn lemma_one_alive_not_all_dead(flags: Seq<bool>, idx: int)
    requires
        0 <= idx < flags.len(),
        flags[idx],
    ensures
        count_alive(flags) > 0,
{
    lemma_count_alive_zero(flags);
}

/// Once every upstream has been marked dead, whatever the order and however
/// often, none counts as alive.
pub proof fn lemma_all_marked_dead(flags: Seq<bool>)
    requires
        forall|i: int| 0 <= i < flags.len() ==> !flags[i],
    ensures
        count_alive(flags) == 0,
{
    lemma_count_alive_zero(flags);
}

/// Liveness flags of a fixed list of upstreams, with the number of live ones.
pub struct UpstreamsState {
    num_upstreams: usize,
    status: Vec<bool>,
}

impl View for UpstreamsState {
    type V = Seq<bool>;

    /// The liveness flags, by upstream index.
    closed spec fn view(&self) -> Seq<bool> {
        self.status@
    }
}

impl UpstreamsState {
    /// The stored number of live upstreams.
    pub closed spec fn recorded_live(&self) -> nat {
        self.num_upstreams as nat
    }

    /// The stored live count is the number of flags that are set.
    pub open spec fn wf(&self) -> bool {
        self.recorded_live() == count_alive(self@)
    }

    /// A registry of `num_upstreams` upstreams, all of them alive.
    pub fn new(num_upstreams: usize) -> (state: UpstreamsState)
        ensures
            state.wf(),
            state@ == all_alive(num_upstreams as nat),
    {
        let mut status: Vec<bool> = Vec::new();
        let mut i: usize = 0;
        while i < num_upstreams
            invariant
                i <= num_upstreams,
                status@ == all_alive(i as nat),
            decreases num_upstreams - i,
        {
            status.push(true);
            i += 1;
            assert(status@ =~= all_alive(i as nat));
        }
        proof {
            lemma_count_alive_full(status@);
        }
        UpstreamsState { num_upstreams, status }
    }

    /// The number of upstreams, alive or dead. It never changes.
    pub fn len(&self) -> (n: usize)
        ensures
            n == self@.len(),
    {
        self.status.len()
    }

    /// The number of upstreams that are alive.
    pub fn live_count(&self) -> (n: usize)
        requires
            self.wf(),
        ensures
            n == count_alive(self@),
    {
        self.num_upstreams
    }

    /// Whether upstream `idx` is alive.
    pub fn is_alive(&self, idx: usize) -> (alive: bool)
        requires
            idx < self@.len(),
        ensures
            alive == self@[idx as int],
    {
        self.status[idx]
    }

    /// Whether no upstream is alive.
    pub fn all_dead(&self) -> (dead: bool)
        requires
            self.wf(),
        ensures
            dead <==> count_alive(self@) == 0,
            dead <==> forall|i: int| 0 <= i < self@.len() ==> !self@[i],
    {
        proof {
            lemma_count_alive_zero(self@);
        }
        self.num_upstreams == 0
    }

    /// Marks upstream `idx` dead. Nothing changes if it already is.
    pub fn set_dead(&mut self, idx: usize)
        requires
            old(self).wf(),
            idx < old(self)@.len(),
        ensures
            final(self).wf(),
            final(self)@ == old(self)@.update(idx as int, false),
    {
        proof {
            lemma_count_alive_update(self@, idx as int, false);
        }
        if self.status[idx] {
            self.status.set(idx, false);
            self.num_upstreams -= 1;
        } else {
            assert(self@ =~= self@.update(idx as int, false));
        }
    }

    /// Marks upstream `idx` alive. Nothing changes if it already is.
    pub fn set_alive(&mut self, idx: usize)
        requires
            old(self).wf(),
            idx < old(self)@.len(),
        ensures
            final(self).wf(),
            final(self)@ == old(self)@.update(idx as int, true),
    {
        proof {
            lemma_count_alive_update(self@, idx as int, true);
            lemma_count_alive_bound(self@.update(idx as int, true));
        }
        let n = self.status.len();
        if !self.status[idx] {
            assert(self.num_upstreams < n);
            self.status.set(idx, true);
            self.num_upstreams += 1;
        } else {
            assert(self@ =~= self@.update(idx as int, true));
        }
    }

    /// Replaces every flag by the result of that upstream's probe, in one pass.
    pub fn reset_from_probe_results(&mut self, results: &[bool])
        requires
            old(self).wf(),
            results@.len() == old(self)@.len(),
        ensures
            final(self).wf(),
            final(self)@ == results@,
    {
        let n = self.status.len();
        let mut idx: usize = 0;
        while idx < n
            invariant
                self.wf(),
                idx <= n,
                n == self@.len(),
                n == results@.len(),
                forall|j: int| 0 <= j < idx ==> self@[j] == results@[j],
            decreases n - idx,
        {
            if results[idx] {
                self.set_alive(idx);
            } else {
                self.set_dead(idx);
            }
            idx += 1;
        }
        assert(self@ =~= results@);
    }
}

} // verus!
