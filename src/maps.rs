use vstd::prelude::*;
use dashmap::DashMap;
use std::time::{Duration, Instant};
use tokio::sync::broadcast::Sender;
use crate::models::ClipboardMessage;
use crate::rate_limit::RateLimitState;
use crate::state::group_is_idle;

verus! {

#[verifier::external_type_specification]
#[verifier::external_body]
#[verifier::reject_recursive_types(K)]
#[verifier::reject_recursive_types(V)]
#[verifier::reject_recursive_types(S)]
pub struct ExDashMap<K, V, S>(DashMap<K, V, S>);

#[verifier::external_type_specification]
#[verifier::external_body]
#[verifier::reject_recursive_types(T)]
pub struct ExSender<T>(Sender<T>);

#[verifier::external_type_specification]
#[verifier::external_body]
pub struct ExInstant(Instant);

/// What a table of rate-limit buckets holds, keyed by device id.
pub uninterp spec fn rate_table(m: DashMap<String, RateLimitState>) -> Map<Seq<char>, RateLimitState>;

/// What a table of histories holds, keyed by user id.
pub uninterp spec fn history_table(m: DashMap<u128, Vec<ClipboardMessage>>) -> Map<u128, Seq<ClipboardMessage>>;

/// What a hub table holds: for each user with a broadcast group, the channel
/// of the sender stored for it.
pub uninterp spec fn hub_channels(m: DashMap<u128, Sender<ClipboardMessage>>) -> Map<u128, int>;

/// The channel a sender sends on: two senders have the same one exactly when
/// their messages reach the same receivers.
pub uninterp spec fn channel_of(tx: Sender<ClipboardMessage>) -> int;

/// The capacity the channel of a sender was opened with.
pub uninterp spec fn capacity_of(tx: Sender<ClipboardMessage>) -> nat;

/// Relies on `DashMap::new`: a map with no entries.
#[verifier::external_body]
pub(crate) fn new_rate_table() -> (r: DashMap<String, RateLimitState>)
    ensures
        rate_table(r).dom().is_empty(),
{
    DashMap::new()
}

/// Relies on `DashMap::get`: a copy of the bucket stored under `device`, if any.
#[verifier::external_body]
pub(crate) fn rate_get(m: &DashMap<String, RateLimitState>, device: &str) -> (r: Option<RateLimitState>)
    ensures
        r == (if rate_table(*m).contains_key(device@) { Some(rate_table(*m)[device@]) } else { None::<RateLimitState> }),
{
    m.get(device).map(|e| *e.value())
}

/// Relies on `DashMap::insert`: stores `state` under `device`, replacing what was there.
#[verifier::external_body]
pub(crate) fn rate_put(m: &mut DashMap<String, RateLimitState>, device: String, state: RateLimitState)
    ensures
        rate_table(*final(m)) == rate_table(*old(m)).insert(device@, state),
{
    m.insert(device, state);
}

/// Relies on `DashMap::new`: a map with no entries.
#[verifier::external_body]
pub(crate) fn new_history_table() -> (r: DashMap<u128, Vec<ClipboardMessage>>)
    ensures
        history_table(r).dom().is_empty(),
{
    DashMap::new()
}

/// Relies on `DashMap::get` and `Vec::clone`: a copy of the history stored under `user`, if any.
#[verifier::external_body]
pub(crate) fn history_get(m: &DashMap<u128, Vec<ClipboardMessage>>, user: u128) -> (r: Option<Vec<ClipboardMessage>>)
    ensures
        r is Some == history_table(*m).contains_key(user),
        r is Some ==> r->0@ == history_table(*m)[user],
{
    m.get(&user).map(|e| e.value().clone())
}

/// Relies on `DashMap::insert`: stores `items` under `user`, replacing what was there.
#[verifier::external_body]
pub(crate) fn history_put(m: &mut DashMap<u128, Vec<ClipboardMessage>>, user: u128, items: Vec<ClipboardMessage>)
    ensures
        history_table(*final(m)) == history_table(*old(m)).insert(user, items@),
{
    m.insert(user, items);
}

/// Relies on `DashMap::new`: a map with no entries.
#[verifier::external_body]
pub(crate) fn new_hub_table() -> (r: DashMap<u128, Sender<ClipboardMessage>>)
    ensures
        hub_channels(r).dom().is_empty(),
{
    DashMap::new()
}

/// Relies on `DashMap::get` and `Sender::clone`: a handle on the channel
/// stored for `user`, if there is one.
#[verifier::external_body]
pub(crate) fn hub_get(m: &DashMap<u128, Sender<ClipboardMessage>>, user: u128) -> (r: Option<Sender<ClipboardMessage>>)
    ensures
        r is Some == hub_channels(*m).contains_key(user),
        r is Some ==> channel_of(r->0) == hub_channels(*m)[user],
{
    m.get(&user).map(|e| e.value().clone())
}

/// Relies on `DashMap::insert`: stores `tx` as the group of `user`.
#[verifier::external_body]
pub(crate) fn hub_put(m: &mut DashMap<u128, Sender<ClipboardMessage>>, user: u128, tx: Sender<ClipboardMessage>)
    ensures
        hub_channels(*final(m)) == hub_channels(*old(m)).insert(user, channel_of(tx)),
{
    m.insert(user, tx);
}

/// Relies on `DashMap::remove_if`: under the lock of the entry's shard,
/// removes the group of `user` when `group_is_idle` holds of the stored
/// sender and `tx`. Answers whether it removed one.
#[verifier::external_body]
pub(crate) fn hub_remove_idle(m: &mut DashMap<u128, Sender<ClipboardMessage>>, user: u128, tx: &Sender<ClipboardMessage>) -> (r: bool)
    ensures
        r ==> hub_channels(*old(m)).contains_key(user) && hub_channels(*old(m))[user] == channel_of(*tx)
            && hub_channels(*final(m)) == hub_channels(*old(m)).remove(user),
        !r ==> hub_channels(*final(m)) == hub_channels(*old(m)),
{
    m.remove_if(&user, |_, stored| group_is_idle(stored, tx)).is_some()
}

/// Relies on `tokio::sync::broadcast::channel`: the sending half of a new
/// channel opened with `capacity`. It panics on a capacity of 0 or above
/// `usize::MAX / 2`.
#[verifier::external_body]
pub(crate) fn open_channel(capacity: usize) -> (r: Sender<ClipboardMessage>)
    requires
        0 < capacity <= usize::MAX / 2,
    ensures
        capacity_of(r) == capacity,
{
    tokio::sync::broadcast::channel(capacity).0
}

/// Relies on `Sender::clone`: another sender on the same channel.
#[verifier::external_body]
pub(crate) fn sender_clone(tx: &Sender<ClipboardMessage>) -> (r: Sender<ClipboardMessage>)
    ensures
        channel_of(r) == channel_of(*tx),
        capacity_of(r) == capacity_of(*tx),
{
    tx.clone()
}

/// Relies on `Sender::same_channel`: whether two senders share a channel.
#[verifier::external_body]
pub(crate) fn same_channel(a: &Sender<ClipboardMessage>, b: &Sender<ClipboardMessage>) -> (r: bool)
    ensures
        r == (channel_of(*a) == channel_of(*b)),
{
    a.same_channel(b)
}

/// Relies on `Sender::receiver_count`: how many receivers the channel has
/// now. Other connections change it at any time.
#[verifier::external_body]
pub(crate) fn receiver_count(tx: &Sender<ClipboardMessage>) -> (r: usize) {
    tx.receiver_count()
}

/// Relies on `Instant::now`: a reading of the monotonic clock.
#[verifier::external_body]
pub(crate) fn monotonic_now() -> (r: Instant) {
    Instant::now()
}

/// Relies on `Instant::elapsed`: the time since `origin`.
#[verifier::external_body]
pub(crate) fn elapsed_since(origin: &Instant) -> (r: Duration) {
    origin.elapsed()
}

} // verus!
