use vstd::prelude::*;
use crate::models::ClipboardMessage;
use crate::state::{pushed, AppState};

verus! {

/// Where a connection stands in its life.
#[derive(Clone, Copy, Debug, PartialEq, Eq, Structural)]
pub enum SessionPhase {
    Connecting,
    Active,
    Closing,
    Closed,
}

/// What happens to a connection, as its activities report it.
#[derive(Clone, Copy, Debug, PartialEq, Eq, Structural)]
pub enum SessionEvent {
    /// The transport upgrade completed and the connection joined its group.
    Upgraded,
    /// A liveness probe went out.
    PingSent,
    /// A liveness probe could not be sent.
    PingFailed,
    /// A message was relayed to the peer, or skipped as its own echo.
    Relayed,
    /// A message could not be sent to the peer, or the group's stream ended.
    RelayFailed,
    /// An inbound frame was handled.
    FrameHandled,
    /// The peer sent a close frame, the inbound stream ended, or reading failed.
    InboundEnded,
    /// The connection left its group after its activities were cancelled.
    GroupLeft,
}

/// An inbound frame as the connection sees it. A text frame carries its raw
/// text and, when that text is a well-formed message, the decoded message.
#[derive(Debug)]
pub enum InboundFrame {
    Text { raw: String, parsed: Option<ClipboardMessage> },
    Close,
    Control,
}

/// What the connection does after an inbound frame.
#[derive(Debug)]
pub enum FrameOutcome {
    /// The message was admitted and recorded; publish it to the group.
    Publish(ClipboardMessage),
    /// The rate limiter rejected the frame; it is dropped.
    RateLimited,
    /// A control frame; nothing to do.
    Ignored,
    /// The peer closed; stop reading.
    Stop,
}

impl SessionPhase {
    /// The phase after `e` happens in phase `self`. Any activity that fails
    /// or ends moves an active connection to closing; leaving the group
    /// closes it; `Closed` is final.
    pub open spec fn next_spec(self, e: SessionEvent) -> SessionPhase {
        match (self, e) {
            (SessionPhase::Connecting, SessionEvent::Upgraded) => SessionPhase::Active,
            (SessionPhase::Active, SessionEvent::PingFailed) => SessionPhase::Closing,
            (SessionPhase::Active, SessionEvent::RelayFailed) => SessionPhase::Closing,
            (SessionPhase::Active, SessionEvent::InboundEnded) => SessionPhase::Closing,
            (SessionPhase::Closing, SessionEvent::GroupLeft) => SessionPhase::Closed,
            (p, _) => p,
        }
    }

    pub fn next(self, e: SessionEvent) -> (r: SessionPhase)
        ensures
            r == self.next_spec(e),
    {
        match (self, e) {
            (SessionPhase::Connecting, SessionEvent::Upgraded) => SessionPhase::Active,
            (SessionPhase::Active, SessionEvent::PingFailed) => SessionPhase::Closing,
            (SessionPhase::Active, SessionEvent::RelayFailed) => SessionPhase::Closing,
            (SessionPhase::Active, SessionEvent::InboundEnded) => SessionPhase::Closing,
            (SessionPhase::Closing, SessionEvent::GroupLeft) => SessionPhase::Closed,
            (p, _) => p,
        }
    }

    /// Whether the connection's activities must keep running.
    pub fn is_running(self) -> (r: bool)
        ensures
            r == (self == SessionPhase::Active),
    {
        match self {
            SessionPhase::Active => true,
            _ => false,
        }
    }
}

/// A message on a group reaches the connection of `device` exactly when it
/// did not come from that device.
pub open spec fn delivers_to(msg: ClipboardMessage, device: Seq<char>) -> bool {
    msg.device_id@ != device
}

/// Whether the connection of `my_device` forwards `msg` to its peer: every
/// message but its own echo.
pub fn should_relay(msg: &ClipboardMessage, my_device: &String) -> (r: bool)
    ensures
        r == delivers_to(*msg, my_device@),
{
    !(msg.device_id == *my_device)
}

/// `m` is what a text frame from `device` becomes: the decoded message with
/// its device id replaced, or else the raw text as a plain message.
pub open spec fn framed(
    m: ClipboardMessage,
    parsed: Option<ClipboardMessage>,
    raw: Seq<char>,
    device: Seq<char>,
) -> bool {
    &&& m.device_id@ == device
    &&& match parsed {
        Some(p) => {
            &&& m.content == p.content
            &&& m.nonce == p.nonce
            &&& m.encrypted == p.encrypted
            &&& m.timestamp == p.timestamp
        },
        None => {
            &&& m.content@ == raw
            &&& m.nonce is None
            &&& !m.encrypted
            &&& m.timestamp > 0
        },
    }
}

/// The message a text frame from `device_id` becomes. The device id is
/// always the connection's own, whatever the frame said.
pub fn frame_to_message(parsed: Option<ClipboardMessage>, raw: String, device_id: &String) -> (r:
    ClipboardMessage)
    ensures
        framed(r, parsed, raw@, device_id@),
{
    match parsed {
        Some(p) => ClipboardMessage {
            device_id: device_id.clone(),
            content: p.content,
            nonce: p.nonce,
            encrypted: p.encrypted,
            timestamp: p.timestamp,
        },
        None => ClipboardMessage::new(device_id.clone(), raw),
    }
}

/// Whether a polled clipboard text is a change to pass on: it differs from
/// the last one seen and is not empty.
pub fn clipboard_changed(current: &String, last: &String) -> (r: bool)
    ensures
        r == (current@ != last@ && current@.len() > 0),
{
    !(*current == *last) && !current.as_str().is_empty()
}

/// The effect of an inbound `frame` from `device`, signed in as `user`,
/// arriving at `now`, that takes the engine from `pre` to `post` and
/// yields `r`.
pub open spec fn frame_effect(
    pre: AppState,
    post: AppState,
    user: u128,
    device: Seq<char>,
    frame: InboundFrame,
    now: u64,
    r: FrameOutcome,
) -> bool {
    &&& post.groups() == pre.groups()
    &&& match frame {
        InboundFrame::Text { raw, parsed } => {
            let b = pre.bucket(device);
            &&& post.buckets() == pre.buckets().insert(device, b.after(now))
            &&& if b.admits(now) {
                &&& r is Publish
                &&& framed(r->Publish_0, parsed, raw@, device)
                &&& post.histories() == pre.histories().insert(
                    user,
                    pushed(pre.snapshot(user), r->Publish_0),
                )
            } else {
                &&& r is RateLimited
                &&& post.histories() == pre.histories()
            }
        },
        InboundFrame::Close => {
            &&& r is Stop
            &&& post.buckets() == pre.buckets()
            &&& post.histories() == pre.histories()
        },
        InboundFrame::Control => {
            &&& r is Ignored
            &&& post.buckets() == pre.buckets()
            &&& post.histories() == pre.histories()
        },
    }
}

impl AppState {
    /// Handles one inbound frame of the connection of `device_id`, signed in
    /// as `user_id`, arriving at `now` on the engine's clock. A text frame is
    /// rate-checked; when admitted it becomes a message that is recorded in
    /// the user's history and handed back to be published.
    pub fn handle_frame_at(
        &mut self,
        user_id: u128,
        device_id: &String,
        frame: InboundFrame,
        now: u64,
    ) -> (r: FrameOutcome)
        requires
            old(self).wf(),
        ensures
            final(self).wf(),
            frame_effect(*old(self), *final(self), user_id, device_id@, frame, now, r),
    {
        match frame {
            InboundFrame::Text { raw, parsed } => {
                if !self.check_rate_limit_at(device_id.as_str(), now) {
                    return FrameOutcome::RateLimited;
                }
                let msg = frame_to_message(parsed, raw, device_id);
                self.add_to_history(user_id, msg.duplicate());
                FrameOutcome::Publish(msg)
            },
            InboundFrame::Close => FrameOutcome::Stop,
            InboundFrame::Control => FrameOutcome::Ignored,
        }
    }

    /// Handles one inbound frame as `handle_frame_at` does, at the clock's
    /// current reading.
    pub fn handle_frame(&mut self, user_id: u128, device_id: &String, frame: InboundFrame) -> (r:
        FrameOutcome)
        requires
            old(self).wf(),
        ensures
            final(self).wf(),
            exists|now: u64| frame_effect(*old(self), *final(self), user_id, device_id@, frame, now, r),
    {
        let now = self.clock_millis();
        self.handle_frame_at(user_id, device_id, frame, now)
    }
}

} // verus!
