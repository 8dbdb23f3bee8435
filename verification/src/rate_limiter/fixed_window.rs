//! The fixed-window algorithm: requests are counted per identity in
//! consecutive windows of a fixed length, and an identity is denied once it
//! has made more than the limit in its current window.

use vstd::hash_map::StringHashMap;
use vstd::prelude::*;

use crate::rate_limiter::Decision;

verus! {

/// The length of a window unless another is asked for, in seconds.
pub const DEFAULT_WINDOW_SECS: u64 = 60;

/// The window of one identity: when it began, in seconds, and how many
/// requests were counted in it.
#[derive(Clone, Copy, Debug, PartialEq, Eq, Structural)]
pub struct Window {
    pub start: u64,
    pub count: usize,
}

/// Whether a window that began at `start` is over at time `now`.
pub open spec fn expired(start: u64, now: u64, window_secs: u64) -> bool {
    now - start >= window_secs
}

/// The window a request at time `now` falls in, before it is counted: the
/// one kept so far, or a new one beginning at `now` if none is kept or the
/// kept one is over.
pub open spec fn window_in_force(kept: Option<Window>, now: u64, window_secs: u64) -> Window {
    match kept {
        Some(w) if !expired(w.start, now, window_secs) => w,
        _ => Window { start: now, count: 0 },
    }
}

/// `w` with one more request counted. The count stays at `usize::MAX` once
/// it is there.
pub open spec fn counted(w: Window) -> Window {
    Window {
        start: w.start,
        count: if w.count < usize::MAX {
            (w.count + 1) as usize
        } else {
            w.count
        },
    }
}

/// The window kept for an identity once one more request of it, at time
/// `now`, is recorded.
pub open spec fn window_after(kept: Option<Window>, now: u64, window_secs: u64) -> Window {
    counted(window_in_force(kept, now, window_secs))
}

/// The answer for a request that brought its window's count to `count`.
pub open spec fn verdict(count: usize, limit: usize) -> Decision {
    if count > limit {
        Decision::Denied
    } else {
        Decision::Allowed
    }
}

/// What `windows` keeps for `identity`, if anything.
pub open spec fn kept_window(windows: Map<Seq<char>, Window>, identity: Seq<char>) -> Option<
    Window,
> {
    if windows.contains_key(identity) {
        Some(windows[identity])
    } else {
        None
    }
}

/// The window kept for an identity once requests of it at the times
/// `times`, in this order, are recorded one after another.
pub open spec fn window_after_all(kept: Option<Window>, times: Seq<u64>, window_secs: u64) -> Option<
    Window,
>
    decreases times.len(),
{
    if times.len() == 0 {
        kept
    } else {
        Some(
            window_after(
                window_after_all(kept, times.drop_last(), window_secs),
                times.last(),
                window_secs,
            ),
        )
    }
}

/// Whether the requests at `times` all fall in one window that the first of
/// them opens: nothing is kept for the identity at the first request, or
/// what is kept is over by then, and every request comes less than
/// `window_secs` after the first.
pub open spec fn one_window(kept: Option<Window>, times: Seq<u64>, window_secs: u64) -> bool {
    &&& times.len() > 0
    &&& kept matches Some(w) ==> expired(w.start, times[0], window_secs)
    &&& forall|i: int| 0 <= i < times.len() ==> !expired(times[0], #[trigger] times[i], window_secs)
}

/// Requests that fall in one window are counted in it one by one.
pub proof fn lemma_one_window_counts(kept: Option<Window>, times: Seq<u64>, window_secs: u64)
    requires
        one_window(kept, times, window_secs),
        times.len() <= usize::MAX,
    ensures
        window_after_all(kept, times, window_secs) == Some(
            Window { start: times[0], count: times.len() as usize },
        ),
    decreases times.len(),
{
    let front = times.drop_last();
    assert(!expired(times[0], times[times.len() - 1], window_secs));
    if front.len() == 0 {
        assert(window_after_all(kept, front, window_secs) == kept);
    } else {
        assert(front[0] == times[0]);
        assert forall|i: int| 0 <= i < front.len() implies !expired(
            front[0],
            #[trigger] front[i],
            window_secs,
        ) by {
            assert(front[i] == times[i]);
        }
        lemma_one_window_counts(kept, front, window_secs);
    }
}

/// With a limit of `limit` requests, of the requests that fall in one window
/// the first `limit` are allowed and every later one is denied: so is the
/// one that follows the `limit`th.
pub proof fn lemma_denied_beyond_limit(
    kept: Option<Window>,
    times: Seq<u64>,
    window_secs: u64,
    limit: usize,
)
    requires
        one_window(kept, times, window_secs),
        times.len() <= usize::MAX,
    ensures
        window_after_all(kept, times, window_secs) matches Some(w) && (verdict(w.count, limit)
            == Decision::Denied <==> times.len() > limit),
{
    lemma_one_window_counts(kept, times, window_secs);
}

/// The first request after a window is over, like the first request ever,
/// opens a new window in which it is the only one counted, and it is allowed
/// under any limit.
pub proof fn lemma_new_window_allows(
    kept: Option<Window>,
    now: u64,
    window_secs: u64,
    limit: usize,
)
    requires
        kept matches Some(w) ==> expired(w.start, now, window_secs),
        limit > 0,
    ensures
        window_after(kept, now, window_secs) == (Window { start: now, count: 1 }),
        verdict(window_after(kept, now, window_secs).count, limit) == Decision::Allowed,
{
}

/// A fixed-window rate limiter.
pub struct FixedWindow {
    limit: usize,
    window_secs: u64,
    windows: StringHashMap<Window>,
}

impl View for FixedWindow {
    type V = Map<Seq<char>, Window>;

    /// The window kept for each identity seen so far.
    closed spec fn view(&self) -> Map<Seq<char>, Window> {
        self.windows@
    }
}

impl FixedWindow {
    /// The number of requests an identity may make per window; 0 means no limit.
    pub closed spec fn limit(&self) -> usize {
        self.limit
    }

    /// The length of a window, in seconds.
    pub closed spec fn window_secs(&self) -> u64 {
        self.window_secs
    }

    /// The answer to a request of `identity` at time `now`.
    pub open spec fn decision(&self, identity: Seq<char>, now: u64) -> Decision {
        if self.limit() == 0 {
            Decision::Allowed
        } else {
            verdict(
                window_after(kept_window(self@, identity), now, self.window_secs()).count,
                self.limit(),
            )
        }
    }

    /// The windows kept once a request of `identity` at time `now` is
    /// recorded. Without a limit nothing is kept.
    pub open spec fn windows_after(&self, identity: Seq<char>, now: u64) -> Map<Seq<char>, Window> {
        if self.limit() == 0 {
            self@
        } else {
            self@.insert(
                identity,
                window_after(kept_window(self@, identity), now, self.window_secs()),
            )
        }
    }

    /// A limiter with windows of one minute that has seen no request.
    pub fn new(limit: usize) -> (fw: FixedWindow)
        ensures
            fw.limit() == limit,
            fw.window_secs() == DEFAULT_WINDOW_SECS,
            fw@ == Map::<Seq<char>, Window>::empty(),
    {
        FixedWindow::with_window(limit, DEFAULT_WINDOW_SECS)
    }

    /// A limiter with windows of `window_secs` seconds that has seen no request.
    pub fn with_window(limit: usize, window_secs: u64) -> (fw: FixedWindow)
        ensures
            fw.limit() == limit,
            fw.window_secs() == window_secs,
            fw@ == Map::<Seq<char>, Window>::empty(),
    {
        FixedWindow { limit, window_secs, windows: StringHashMap::new() }
    }

    /// The number of requests an identity may make per window; 0 means no limit.
    pub fn max_requests(&self) -> (limit: usize)
        ensures
            limit == self.limit(),
    {
        self.limit
    }

    /// The window kept for `identity`, if it was seen.
    pub fn window_of(&self, identity: &str) -> (kept: Option<Window>)
        ensures
            kept == kept_window(self@, identity@),
    {
        match self.windows.get(identity) {
            Some(w) => Some(*w),
            None => None,
        }
    }

    /// Records a request of `identity` at time `now` (in seconds) and says
    /// whether it may proceed.
    ///
    /// Without a limit every request is allowed and nothing is recorded.
    /// Otherwise the request is counted in the identity's window, a new
    /// window beginning at `now` if there is none or the last one is over,
    /// and it is denied when that brings the count above the limit.
    pub fn check_and_record(&mut self, identity: &str, now: u64) -> (decision: Decision)
        ensures
            decision == old(self).decision(identity@, now),
            final(self)@ == old(self).windows_after(identity@, now),
            final(self).limit() == old(self).limit(),
            final(self).window_secs() == old(self).window_secs(),
    {
        if self.limit == 0 {
            return Decision::Allowed;
        }
        let mut window = match self.window_of(identity) {
            Some(w) => if now >= w.start && now - w.start >= self.window_secs {
                Window { start: now, count: 0 }
            } else {
                w
            },
            None => Window { start: now, count: 0 },
        };
        if window.count < usize::MAX {
            window.count += 1;
        }
        self.windows.insert(identity.to_owned(), window);
        if window.count > self.limit {
            Decision::Denied
        } else {
            Decision::Allowed
        }
    }
}

/// Without a limit no request is denied and nothing is recorded, whatever
/// was recorded before and however many requests came.
pub proof fn lemma_no_limit_never_denies(fw: FixedWindow, identity: Seq<char>, now: u64)
    requires
        fw.limit() == 0,
    ensures
        fw.decision(identity, now) == Decision::Allowed,
        fw.windows_after(identity, now) == fw@,
{
}

/// A request of an identity whose window is still running and already
/// holds as many requests as the limit allows is denied.
pub proof fn lemma_full_window_denies(fw: FixedWindow, identity: Seq<char>, now: u64)
    requires
        0 < fw.limit() < usize::MAX,
        fw@.contains_key(identity),
        !expired(fw@[identity].start, now, fw.window_secs()),
        fw@[identity].count >= fw.limit(),
    ensures
        fw.decision(identity, now) == Decision::Denied,
{
}

} // verus!
