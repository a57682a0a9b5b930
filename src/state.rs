use vstd::prelude::*;
use dashmap::DashMap;
use std::time::Instant;
use tokio::sync::broadcast::Sender;
use crate::maps::{
    capacity_of, channel_of, elapsed_since, history_get, history_put, history_table, hub_channels,
    hub_get, hub_put, hub_remove_idle, monotonic_now, new_history_table, new_hub_table,
    new_rate_table, open_channel, rate_get, rate_put, rate_table, receiver_count, same_channel,
    sender_clone,
};
use crate::models::ClipboardMessage;
use crate::rate_limit::RateLimitState;

verus! {

/// Most messages kept in a user's history.
pub const MAX_HISTORY_SIZE: usize = 50;

/// Messages a group's channel buffers for each subscriber.
pub const GROUP_CAPACITY: usize = 100;

/// `h` after `m` is put in front of it, cut to its `MAX_HISTORY_SIZE` newest messages.
pub open spec fn pushed(h: Seq<ClipboardMessage>, m: ClipboardMessage) -> Seq<ClipboardMessage> {
    let s = seq![m] + h;
    if s.len() > MAX_HISTORY_SIZE {
        s.subrange(0, MAX_HISTORY_SIZE as int)
    } else {
        s
    }
}

/// The shared state of the synchronisation engine: the token secret, the
/// broadcast group of each connected user, the rate-limit bucket of each
/// device and the recent history of each user.
pub struct AppState {
    jwt_secret: String,
    hub: DashMap<u128, Sender<ClipboardMessage>>,
    rate_limits: DashMap<String, RateLimitState>,
    history: DashMap<u128, Vec<ClipboardMessage>>,
    clock_origin: Instant,
}

impl AppState {
    /// The secret that signs and checks bearer tokens.
    pub closed spec fn secret(&self) -> String {
        self.jwt_secret
    }

    /// The token-signing secret.
    pub fn jwt_secret(&self) -> (r: &String)
        ensures
            *r == self.secret(),
    {
        &self.jwt_secret
    }

    /// For each user with a broadcast group, the channel of that group.
    pub closed spec fn channels(&self) -> Map<u128, int> {
        hub_channels(self.hub)
    }

    /// Users that have a broadcast group.
    pub open spec fn groups(&self) -> Set<u128> {
        self.channels().dom()
    }

    /// Rate-limit buckets by device id.
    pub closed spec fn buckets(&self) -> Map<Seq<char>, RateLimitState> {
        rate_table(self.rate_limits)
    }

    /// The bucket of `device`; a device never seen has a fresh one.
    pub open spec fn bucket(&self, device: Seq<char>) -> RateLimitState {
        if self.buckets().contains_key(device) {
            self.buckets()[device]
        } else {
            RateLimitState::fresh()
        }
    }

    /// Histories by user id.
    pub closed spec fn histories(&self) -> Map<u128, Seq<ClipboardMessage>> {
        history_table(self.history)
    }

    /// The history of `user`, newest first; empty for a user never seen.
    pub open spec fn snapshot(&self, user: u128) -> Seq<ClipboardMessage> {
        if self.histories().contains_key(user) {
            self.histories()[user]
        } else {
            Seq::empty()
        }
    }

    /// No stored history is longer than `MAX_HISTORY_SIZE`.
    pub open spec fn wf(&self) -> bool {
        forall|u: u128| #[trigger] self.histories().contains_key(u)
            ==> self.histories()[u].len() <= MAX_HISTORY_SIZE
    }

    /// An engine with no groups, buckets or histories.
    pub fn new(jwt_secret: String) -> (r: AppState)
        ensures
            r.wf(),
            r.secret() == jwt_secret,
            r.groups().is_empty(),
            r.buckets().dom().is_empty(),
            r.histories().dom().is_empty(),
    {
        AppState {
            jwt_secret,
            hub: new_hub_table(),
            rate_limits: new_rate_table(),
            history: new_history_table(),
            clock_origin: monotonic_now(),
        }
    }

    /// Milliseconds since this engine was created, on the monotonic clock.
    pub fn clock_millis(&self) -> (r: u64) {
        saturate_millis(elapsed_since(&self.clock_origin).as_millis())
    }

    /// The bucket of `device_id`; a fresh one for a device never seen.
    pub fn bucket_of(&self, device_id: &str) -> (r: RateLimitState)
        ensures
            r == self.bucket(device_id@),
    {
        match rate_get(&self.rate_limits, device_id) {
            Some(s) => s,
            None => RateLimitState::default(),
        }
    }

    /// Whether `user_id` has a broadcast group.
    pub fn has_group(&self, user_id: u128) -> (r: bool)
        ensures
            r == self.groups().contains(user_id),
    {
        hub_get(&self.hub, user_id).is_some()
    }

    /// Admission of a message from `device_id` arriving at `now`
    /// (milliseconds on the engine's clock). The device's bucket is updated
    /// whether the message is admitted or not; no other bucket changes.
    pub fn check_rate_limit_at(&mut self, device_id: &str, now: u64) -> (r: bool)
        requires
            old(self).wf(),
        ensures
            final(self).wf(),
            r == old(self).bucket(device_id@).admits(now),
            final(self).buckets() == old(self).buckets().insert(
                device_id@,
                old(self).bucket(device_id@).after(now),
            ),
            final(self).histories() == old(self).histories(),
            final(self).groups() == old(self).groups(),
    {
        let state: RateLimitState = match rate_get(&self.rate_limits, device_id) {
            Some(s) => s,
            None => RateLimitState::default(),
        };
        let (admitted, next) = state.check(now);
        rate_put(&mut self.rate_limits, device_id.to_owned(), next);
        proof {
            assert(self.histories() == old(self).histories());
        }
        admitted
    }

    /// Admission of a message from `device_id` now, as `check_rate_limit_at`
    /// decides it at the clock's current reading.
    pub fn check_rate_limit(&mut self, device_id: &str) -> (r: bool)
        requires
            old(self).wf(),
        ensures
            final(self).wf(),
            exists|now: u64|
                r == old(self).bucket(device_id@).admits(now) && final(self).buckets()
                    == old(self).buckets().insert(device_id@, old(self).bucket(device_id@).after(now)),
            final(self).histories() == old(self).histories(),
            final(self).groups() == old(self).groups(),
    {
        let now = self.clock_millis();
        self.check_rate_limit_at(device_id, now)
    }

    /// Puts `msg` at the front of the history of `user_id`, keeping its
    /// `MAX_HISTORY_SIZE` newest messages. No other history changes.
    pub fn add_to_history(&mut self, user_id: u128, msg: ClipboardMessage)
        requires
            old(self).wf(),
        ensures
            final(self).wf(),
            final(self).histories() == old(self).histories().insert(
                user_id,
                pushed(old(self).snapshot(user_id), msg),
            ),
            final(self).buckets() == old(self).buckets(),
            final(self).groups() == old(self).groups(),
    {
        let mut items: Vec<ClipboardMessage> = match history_get(&self.history, user_id) {
            Some(h) => h,
            None => Vec::new(),
        };
        items.insert(0, msg);
        items.truncate(MAX_HISTORY_SIZE);
        history_put(&mut self.history, user_id, items);
        proof {
            assert(items@ =~= pushed(old(self).snapshot(user_id), msg));
            assert forall|u: u128| #[trigger] self.histories().contains_key(u) implies
                self.histories()[u].len() <= MAX_HISTORY_SIZE by {
                if u != user_id {
                    assert(old(self).histories().contains_key(u));
                }
            }
        }
    }

    /// A copy of the history of `user_id`, newest first; empty for a user
    /// with none.
    pub fn get_history(&self, user_id: u128) -> (r: Vec<ClipboardMessage>)
        ensures
            r@ == self.snapshot(user_id),
    {
        match history_get(&self.history, user_id) {
            Some(h) => h,
            None => Vec::new(),
        }
    }

    /// The sender of the broadcast group of `user_id`. A user without a
    /// group gets a new one, opened with `GROUP_CAPACITY`; a user that has
    /// one gets a sender on that same channel, and no group changes.
    pub fn get_or_create_channel(&mut self, user_id: u128) -> (r: Sender<ClipboardMessage>)
        requires
            old(self).wf(),
        ensures
            final(self).wf(),
            final(self).groups() == old(self).groups().insert(user_id),
            channel_of(r) == final(self).channels()[user_id],
            old(self).groups().contains(user_id) ==> final(self).channels() == old(self).channels(),
            !old(self).groups().contains(user_id) ==> final(self).channels() == old(self).channels().insert(
                user_id,
                channel_of(r),
            ) && capacity_of(r) == GROUP_CAPACITY,
            final(self).buckets() == old(self).buckets(),
            final(self).histories() == old(self).histories(),
    {
        match hub_get(&self.hub, user_id) {
            Some(tx) => {
                proof {
                    assert(self.groups() =~= old(self).groups().insert(user_id));
                }
                tx
            },
            None => {
                let tx = open_channel(GROUP_CAPACITY);
                hub_put(&mut self.hub, user_id, sender_clone(&tx));
                proof {
                    assert(self.groups() =~= old(self).groups().insert(user_id));
                    assert(self.histories() == old(self).histories());
                }
                tx
            },
        }
    }

    /// Drops the group of `user_id` if it is still the channel of `tx` and
    /// has no receivers. The check and the removal are one step under the
    /// lock of the group's entry, so a join cannot slip between them. Every
    /// other group stays.
    pub fn cleanup_channel_if_empty(&mut self, user_id: u128, tx: &Sender<ClipboardMessage>)
        requires
            old(self).wf(),
        ensures
            final(self).wf(),
            final(self).channels() == old(self).channels() || (old(self).channels().contains_key(user_id)
                && old(self).channels()[user_id] == channel_of(*tx) && final(self).channels()
                == old(self).channels().remove(user_id)),
            final(self).buckets() == old(self).buckets(),
            final(self).histories() == old(self).histories(),
    {
        hub_remove_idle(&mut self.hub, user_id, tx);
        proof {
            assert(self.histories() == old(self).histories());
        }
    }
}

/// Whether a group may be dropped: its stored sender is on the channel being
/// left (`same`), and that channel has `receivers` equal to 0.
pub open spec fn group_idle_spec(same: bool, receivers: usize) -> bool {
    same && receivers == 0
}

/// Decides a cleanup from what was observed of the group.
pub fn group_idle(same: bool, receivers: usize) -> (r: bool)
    ensures
        r == group_idle_spec(same, receivers),
{
    same && receivers == 0
}

/// Whether the group whose stored sender is `stored` may be dropped by a
/// connection leaving through `tx`: only if both are on one channel, and
/// only if that channel has no receivers at the moment of the check.
pub fn group_is_idle(stored: &Sender<ClipboardMessage>, tx: &Sender<ClipboardMessage>) -> (r: bool)
    ensures
        r ==> channel_of(*stored) == channel_of(*tx),
{
    let same = same_channel(stored, tx);
    if !same {
        return false;
    }
    group_idle(same, receiver_count(stored))
}

/// Milliseconds as a `u64`, saturating at `u64::MAX`.
pub fn saturate_millis(ms: u128) -> (r: u64)
    ensures
        r == (if ms > u64::MAX as u128 { u64::MAX } else { ms as u64 }),
{
    if ms > u64::MAX as u128 {
        u64::MAX
    } else {
        ms as u64
    }
}

} // verus!
