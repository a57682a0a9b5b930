use vstd::prelude::*;
use std::time::{Duration, SystemTime, UNIX_EPOCH};
use crate::state::saturate_millis;

verus! {

/// Lifetime of an issued bearer token, in seconds (24 hours).
pub const TOKEN_LIFETIME_SECS: usize = 86400;

#[derive(Debug)]
pub struct RegisterRequest {
    pub first_name: String,
    pub last_name: String,
    pub email: String,
    pub password: String,
}

#[derive(Debug)]
pub struct LoginRequest {
    pub email: String,
    pub password: String,
}

#[derive(Debug)]
pub struct AuthResponse {
    pub token: String,
}

/// Claims carried by a bearer token: the user id as `sub`, and the issue and
/// expiry instants in seconds since the Unix epoch.
#[derive(Debug)]
pub struct Claims {
    pub sub: String,
    pub exp: usize,
    pub iat: usize,
}

#[derive(Debug)]
pub struct WsQuery {
    pub token: String,
}

/// One clipboard change as it travels between devices.
#[derive(Debug, Clone)]
pub struct ClipboardMessage {
    pub device_id: String,
    pub content: String,
    pub nonce: Option<String>,
    pub encrypted: bool,
    pub timestamp: u64,
}

impl ClipboardMessage {
    /// A plain-text message from `device_id`: no nonce, not encrypted,
    /// stamped with the current wall-clock time.
    pub fn new(device_id: String, content: String) -> (r: ClipboardMessage)
        ensures
            r.device_id == device_id,
            r.content == content,
            r.nonce is None,
            !r.encrypted,
            r.timestamp > 0,
    {
        ClipboardMessage {
            device_id,
            content,
            nonce: None,
            encrypted: false,
            timestamp: now_millis(),
        }
    }
}

impl ClipboardMessage {
    /// A copy of this message, field for field.
    pub fn duplicate(&self) -> (r: ClipboardMessage)
        ensures
            r == *self,
    {
        let nonce: Option<String> = match &self.nonce {
            Some(n) => Some(n.clone()),
            None => None,
        };
        ClipboardMessage {
            device_id: self.device_id.clone(),
            content: self.content.clone(),
            nonce,
            encrypted: self.encrypted,
            timestamp: self.timestamp,
        }
    }
}

impl Claims {
    /// The claims of a token for `subject` issued at `now_secs`, valid for
    /// `TOKEN_LIFETIME_SECS` seconds.
    pub fn issued_at(subject: String, now_secs: usize) -> (r: Claims)
        requires
            now_secs + TOKEN_LIFETIME_SECS <= usize::MAX,
        ensures
            r.sub == subject,
            r.iat == now_secs,
            r.exp == now_secs + TOKEN_LIFETIME_SECS,
    {
        Claims { sub: subject, iat: now_secs, exp: now_secs + TOKEN_LIFETIME_SECS }
    }
}

#[verifier::external_type_specification]
#[verifier::external_body]
pub struct ExSystemTime(SystemTime);

/// Relies on `SystemTime::now`: a reading of the wall clock.
#[verifier::external_body]
fn wall_clock() -> (r: SystemTime) {
    SystemTime::now()
}

/// Relies on `SystemTime::duration_since(UNIX_EPOCH)`: the time from the Unix
/// epoch to `t`, or `None` when `t` is earlier than the epoch.
#[verifier::external_body]
fn since_unix_epoch(t: &SystemTime) -> (r: Option<Duration>) {
    t.duration_since(UNIX_EPOCH).ok()
}

/// Relies on `Duration::as_millis`: the whole milliseconds in a duration.
pub assume_specification[ Duration::as_millis ](d: &Duration) -> u128;

/// The timestamp a clock reading gives: the milliseconds since the epoch,
/// saturating at `u64::MAX`, with 1 for a reading at or before the epoch.
pub fn stamp_of(ms: Option<u128>) -> (r: u64)
    ensures
        r == match ms {
            Some(m) => if m == 0 {
                1
            } else if m > u64::MAX as u128 {
                u64::MAX
            } else {
                m as u64
            },
            None => 1,
        },
{
    match ms {
        Some(m) => if m == 0 {
            1
        } else {
            saturate_millis(m)
        },
        None => 1,
    }
}

/// Milliseconds since the Unix epoch, never 0: a clock that reads at or
/// before the epoch gives 1.
pub fn now_millis() -> (r: u64)
    ensures
        r > 0,
{
    let reading: Option<u128> = match since_unix_epoch(&wall_clock()) {
        Some(d) => Some(d.as_millis()),
        None => None,
    };
    stamp_of(reading)
}

} // verus!
