use vstd::prelude::*;
use crate::models::ClipboardMessage;
use crate::rate_limit::{RateLimitState, MAX_MESSAGES_PER_WINDOW, MIN_INTERVAL_MS, WINDOW_DURATION_MS};
use crate::session::delivers_to;
use crate::state::{group_idle_spec, pushed, AppState, MAX_HISTORY_SIZE};
use crate::maps::channel_of;
use tokio::sync::broadcast::Sender;

verus! {

/// The bucket after messages arrive at the instants `ts`, in order, starting from `s`.
pub open spec fn replay(s: RateLimitState, ts: Seq<u64>) -> RateLimitState
    decreases ts.len(),
{
    if ts.len() == 0 {
        s
    } else {
        replay(s, ts.drop_last()).after(ts.last())
    }
}

/// Consecutive instants of `ts` lie at least `MIN_INTERVAL_MS` apart.
pub open spec fn paced(ts: Seq<u64>) -> bool {
    forall|i: int| 0 < i < ts.len() ==> ts[i - 1] + MIN_INTERVAL_MS <= #[trigger] ts[i]
}

/// Every instant of `ts` lies in the window that opens at its first one.
pub open spec fn in_one_window(ts: Seq<u64>) -> bool {
    forall|i: int|
        0 <= i < ts.len() ==> ts[0] <= #[trigger] ts[i] && ts[i] < ts[0] + WINDOW_DURATION_MS
}

/// The history after the messages `ms` are appended, in order, to `h`.
pub open spec fn appended(h: Seq<ClipboardMessage>, ms: Seq<ClipboardMessage>) -> Seq<ClipboardMessage>
    decreases ms.len(),
{
    if ms.len() == 0 {
        h
    } else {
        pushed(appended(h, ms.drop_last()), ms.last())
    }
}

/// A second message less than `MIN_INTERVAL_MS` after an admitted one is
/// rejected; one at least that long after it is admitted when the window
/// still has room.
pub proof fn lemma_min_spacing(s: RateLimitState, t1: u64, t2: u64)
    requires
        s.admits(t1),
        t1 <= t2,
    ensures
        t2 - t1 < MIN_INTERVAL_MS ==> !s.after(t1).admits(t2),
        t2 - t1 >= MIN_INTERVAL_MS && s.after(t1).window_at(t2).1 < MAX_MESSAGES_PER_WINDOW
            ==> s.after(t1).admits(t2),
{
}

proof fn lemma_replay_paced(ts: Seq<u64>)
    requires
        paced(ts),
        in_one_window(ts),
        1 <= ts.len() <= MAX_MESSAGES_PER_WINDOW,
    ensures
        replay(RateLimitState::fresh(), ts) == (RateLimitState {
            last_message: Some(ts.last()),
            message_count: ts.len() as u32,
            window_start: Some(ts[0]),
        }),
        forall|k: int| 0 <= k < ts.len() ==> #[trigger] replay(RateLimitState::fresh(), ts.take(k)).admits(ts[k]),
    decreases ts.len(),
{
    let f = RateLimitState::fresh();
    let n = ts.len() as int;
    let p = ts.drop_last();
    assert(ts.take(n - 1) =~= p);
    assert(ts.take(n) =~= ts);
    if ts.len() == 1 {
        assert(p.len() == 0);
        assert(replay(f, ts.take(0)) == f) by {
            assert(ts.take(0).len() == 0);
        }
    } else {
        assert(paced(p)) by {
            assert forall|i: int| 0 < i < p.len() implies p[i - 1] + MIN_INTERVAL_MS <= #[trigger] p[i] by {
                assert(ts[i] == p[i] && ts[i - 1] == p[i - 1]);
            }
        }
        assert(in_one_window(p)) by {
            assert forall|i: int| 0 <= i < p.len() implies p[0] <= #[trigger] p[i] && p[i] < p[0] + WINDOW_DURATION_MS by {
                assert(ts[i] == p[i]);
            }
        }
        lemma_replay_paced(p);
        assert(ts[n - 2] + MIN_INTERVAL_MS <= ts[n - 1]);
        assert forall|k: int| 0 <= k < ts.len() implies #[trigger] replay(f, ts.take(k)).admits(ts[k]) by {
            if k < n - 1 {
                assert(ts.take(k) =~= p.take(k));
                assert(replay(f, p.take(k)).admits(p[k]));
            }
        }
    }
}

/// From a fresh bucket, `MAX_MESSAGES_PER_WINDOW` paced messages within one
/// window are all admitted, and the next one within that window is
/// rejected; once the window has run its length, a paced message is admitted
/// again and opens a new window with a count of 1.
pub proof fn lemma_window_budget(ts: Seq<u64>, t: u64)
    requires
        paced(ts),
        in_one_window(ts),
        ts.len() == MAX_MESSAGES_PER_WINDOW,
        ts.last() + MIN_INTERVAL_MS <= t,
    ensures
        forall|k: int| 0 <= k < ts.len() ==> #[trigger] replay(RateLimitState::fresh(), ts.take(k)).admits(ts[k]),
        t < ts[0] + WINDOW_DURATION_MS ==> !replay(RateLimitState::fresh(), ts).admits(t),
        t >= ts[0] + WINDOW_DURATION_MS ==> replay(RateLimitState::fresh(), ts).admits(t)
            && replay(RateLimitState::fresh(), ts).after(t).message_count == 1
            && replay(RateLimitState::fresh(), ts).after(t).window_start == Some(t),
{
    lemma_replay_paced(ts);
}

/// What happens to the bucket of device `a` leaves the bucket of every other
/// device `b` as it was.
pub proof fn lemma_buckets_isolated(pre: AppState, post: AppState, a: Seq<char>, x: RateLimitState, b: Seq<char>)
    requires
        post.buckets() == pre.buckets().insert(a, x),
        a != b,
    ensures
        post.bucket(b) == pre.bucket(b),
{
}

/// After `n` appends to an empty history, it holds the `min(n, MAX_HISTORY_SIZE)`
/// newest messages, newest first.
pub proof fn lemma_history_newest_first(ms: Seq<ClipboardMessage>)
    ensures
        appended(Seq::empty(), ms).len() == if ms.len() < MAX_HISTORY_SIZE { ms.len() } else { MAX_HISTORY_SIZE as nat },
        forall|i: int|
            0 <= i < appended(Seq::empty(), ms).len() ==> #[trigger] appended(Seq::empty(), ms)[i] == ms[ms.len() - 1 - i],
    decreases ms.len(),
{
    if ms.len() > 0 {
        let p = ms.drop_last();
        lemma_history_newest_first(p);
        let h = appended(Seq::<ClipboardMessage>::empty(), p);
        let s = seq![ms.last()] + h;
        assert forall|i: int| 0 <= i < appended(Seq::empty(), ms).len() implies #[trigger] appended(Seq::empty(), ms)[i] == ms[ms.len() - 1 - i] by {
            assert(appended(Seq::empty(), ms)[i] == s[i]);
            if i > 0 {
                assert(s[i] == h[i - 1]);
                assert(p[p.len() - 1 - (i - 1)] == ms[ms.len() - 1 - i]);
            }
        }
    }
}

/// Appending to the history of user `a` leaves the history of every other
/// user `b` as it was.
pub proof fn lemma_histories_isolated(pre: AppState, post: AppState, a: u128, h: Seq<ClipboardMessage>, b: u128)
    requires
        post.histories() == pre.histories().insert(a, h),
        a != b,
    ensures
        post.snapshot(b) == pre.snapshot(b),
{
}

/// A message on a group reaches each subscribed connection whose device id
/// differs from the message's, and never the one whose device id matches it.
pub proof fn lemma_relay_all_but_origin(msg: ClipboardMessage, subscribers: Seq<Seq<char>>)
    ensures
        forall|i: int| 0 <= i < subscribers.len() ==> (#[trigger] delivers_to(msg, subscribers[i])
            <==> subscribers[i] != msg.device_id@),
{
}

/// Two joins by one user, one after the other, leave exactly that user's
/// group added, and both hand back senders on the one channel stored for it.
pub proof fn lemma_join_twice_one_group(
    pre: AppState,
    mid: AppState,
    post: AppState,
    user: u128,
    r1: Sender<ClipboardMessage>,
    r2: Sender<ClipboardMessage>,
)
    requires
        mid.groups() == pre.groups().insert(user),
        channel_of(r1) == mid.channels()[user],
        post.groups() == mid.groups().insert(user),
        channel_of(r2) == post.channels()[user],
        mid.groups().contains(user) ==> post.channels() == mid.channels(),
    ensures
        post.groups() == pre.groups().insert(user),
        channel_of(r1) == channel_of(r2),
        channel_of(r2) == post.channels()[user],
{
}

/// A leave through `tx` removes the group of `user` only when that group is
/// still the channel of `tx`; when it is removed, no other group changes, and
/// when it stays, nothing changes.
pub proof fn lemma_leave_removes_only_own_group(
    pre: AppState,
    post: AppState,
    user: u128,
    tx: Sender<ClipboardMessage>,
)
    requires
        post.channels() == pre.channels() || (pre.channels().contains_key(user)
            && pre.channels()[user] == channel_of(tx) && post.channels() == pre.channels().remove(user)),
    ensures
        !post.groups().contains(user) && pre.groups().contains(user) ==> pre.channels()[user] == channel_of(tx)
            && post.groups() == pre.groups().remove(user),
        post.groups().contains(user) ==> post.channels() == pre.channels(),
{
    if !post.groups().contains(user) && pre.groups().contains(user) {
        assert(post.channels() != pre.channels());
        assert(post.groups() =~= pre.groups().remove(user));
    }
}

/// A group whose stored sender is on the channel being left is dropped exactly
/// when no receiver remains; one whose channel has receivers is kept.
pub proof fn lemma_idle_exactly_without_receivers(receivers: usize)
    ensures
        group_idle_spec(true, receivers) <==> receivers == 0,
        receivers > 0 ==> !group_idle_spec(true, receivers),
        !group_idle_spec(false, receivers),
{
}

} // verus!
