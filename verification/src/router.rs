//! Choosing the upstream for a new client connection.
//!
//! A choice is made among the live upstreams only, each being as likely as
//! the others. When connecting to the chosen upstream fails, the upstream is
//! marked dead and another choice is made, until a connection stands or no
//! live upstream is left.

use vstd::prelude::*;

use crate::upstreams::{count_alive, lemma_count_alive_update, UpstreamsState};

verus! {

/// Why no upstream could be chosen.
#[derive(Clone, Copy, Debug, PartialEq, Eq, Structural)]
pub enum RouteError {
    /// Every upstream is dead.
    AllDead,
}

/// `rand`'s standard generator. The library never makes one: whoever asks
/// for a route brings a generator, seeded as they see fit.
#[verifier::external_type_specification]
#[verifier::external_body]
pub struct ExStdRng(rand::rngs::StdRng);

/// `rand::Rng::gen_range(0, bound)` on `usize`: a number drawn uniformly
/// from `0..bound`. Claimed is only that it lies in that range, which the
/// sampler's arithmetic gives for every state of the generator. The call
/// panics on an empty range, which `requires` excludes.
#[verifier::external_body]
fn draw_below(rng: &mut rand::rngs::StdRng, bound: usize) -> (drawn: usize)
    requires
        bound > 0,
    ensures
        drawn < bound,
{
    rand::Rng::gen_range(rng, 0, bound)
}

/// Counting one more flag adds it to the count of those before it.
pub proof fn lemma_count_alive_take(flags: Seq<bool>, i: int)
    requires
        0 <= i < flags.len(),
    ensures
        count_alive(flags.take(i + 1)) == count_alive(flags.take(i)) + (if flags[i] {
            1nat
        } else {
            0nat
        }),
{
    assert(flags.take(i + 1).drop_last() =~= flags.take(i));
}

/// Whether `idx` is the live upstream that has exactly `k` live upstreams
/// before it.
pub open spec fn is_nth_live(flags: Seq<bool>, k: nat, idx: int) -> bool {
    &&& 0 <= idx < flags.len()
    &&& flags[idx]
    &&& count_alive(flags.take(idx)) == k
}

/// No more flags are set among the first `i` than among the first `j` that
/// include them.
pub proof fn lemma_count_alive_take_monotone(flags: Seq<bool>, i: int, j: int)
    requires
        0 <= i <= j <= flags.len(),
    ensures
        count_alive(flags.take(i)) <= count_alive(flags.take(j)),
    decreases j - i,
{
    if i < j {
        lemma_count_alive_take_monotone(flags, i, j - 1);
        lemma_count_alive_take(flags, j - 1);
    }
}

/// For each `k` there is at most one live upstream with `k` live ones
/// before it.
pub proof fn lemma_nth_live_unique(flags: Seq<bool>, k: nat, i: int, j: int)
    requires
        is_nth_live(flags, k, i),
        is_nth_live(flags, k, j),
    ensures
        i == j,
{
    if i < j {
        lemma_count_alive_take(flags, i);
        lemma_count_alive_take_monotone(flags, i + 1, j);
    } else if j < i {
        lemma_count_alive_take(flags, j);
        lemma_count_alive_take_monotone(flags, j + 1, i);
    }
}

/// The index of the live upstream that has exactly `k` live upstreams
/// before it.
pub fn nth_live(state: &UpstreamsState, k: usize) -> (idx: usize)
    requires
        state.wf(),
        k < count_alive(state@),
    ensures
        is_nth_live(state@, k as nat, idx as int),
{
    let n = state.len();
    let mut seen: usize = 0;
    let mut i: usize = 0;
    assert(state@.take(n as int) =~= state@);
    loop
        invariant
            n == state@.len(),
            i <= n,
            seen <= k,
            seen == count_alive(state@.take(i as int)),
            k < count_alive(state@.take(n as int)),
        decreases n - i,
    {
        assert(i < n);
        proof {
            lemma_count_alive_take(state@, i as int);
        }
        if state.is_alive(i) {
            if seen == k {
                return i;
            }
            seen += 1;
        }
        i += 1;
    }
}

/// Chooses a live upstream at random, each being as likely as the others:
/// one number is drawn from `rng`, below the number of live upstreams, and
/// the live upstream with that many live ones before it is taken.
///
/// Fails with `AllDead` exactly when no upstream is alive, and then draws
/// nothing; an upstream that is dead is never chosen.
pub fn route(state: &UpstreamsState, rng: &mut rand::rngs::StdRng) -> (chosen: Result<
    usize,
    RouteError,
>)
    requires
        state.wf(),
    ensures
        chosen is Err <==> count_alive(state@) == 0,
        chosen matches Ok(idx) ==> idx < state@.len() && state@[idx as int],
{
    if state.all_dead() {
        return Err(RouteError::AllDead);
    }
    let k = draw_below(rng, state.live_count());
    Ok(nth_live(state, k))
}

/// Takes note that connecting to upstream `failed` did not succeed: marks it
/// dead and chooses again among the upstreams still alive.
pub fn route_after_failure(
    state: &mut UpstreamsState,
    failed: usize,
    rng: &mut rand::rngs::StdRng,
) -> (chosen: Result<usize, RouteError>)
    requires
        old(state).wf(),
        failed < old(state)@.len(),
    ensures
        final(state).wf(),
        final(state)@ == old(state)@.update(failed as int, false),
        chosen is Err <==> count_alive(final(state)@) == 0,
        chosen matches Ok(idx) ==> idx < final(state)@.len() && final(state)@[idx as int] && idx
            != failed,
{
    state.set_dead(failed);
    route(state, rng)
}

/// A failed connection to a live upstream leaves one live upstream fewer, so
/// that choosing again after each failure comes to an end.
pub proof fn lemma_failure_shrinks_pool(flags: Seq<bool>, failed: int)
    requires
        0 <= failed < flags.len(),
        flags[failed],
    ensures
        count_alive(flags.update(failed, false)) == count_alive(flags) - 1,
{
    lemma_count_alive_update(flags, failed, false);
}

} // verus!
