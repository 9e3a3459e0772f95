//! The decisions of one ping attempt.
//!
//! An attempt sends one echo request and then waits for the echo reply that
//! carries its sequence number, until a deadline. Sending, receiving and
//! reading the clock are done by the caller; what to do next is decided here,
//! as a state machine: the caller hands in what happened and is told the new
//! state and what to do. Times are counted in nanoseconds from the moment the
//! request was sent.

use crate::ping::icmp_packets::{Classified, PossibleIcmpPackets};
use vstd::prelude::*;

verus! {

/// The nanoseconds of one millisecond.
pub const NANOS_PER_MILLI: u128 = 1_000_000;

/// The time to wait before a request that could not be sent is sent again,
/// in nanoseconds: one second.
pub const RETRY_DELAY: u128 = 1_000_000_000;

/// What kind of message came in, as far as an attempt cares.
#[derive(Clone, Copy, Debug, PartialEq, Eq, Structural)]
pub enum ReplyKind {
    /// An echo reply with a valid checksum and this sequence number.
    Echo { sequence: u16 },
    /// Time exceeded: the time to live ran out on the way.
    TtlExceeded,
    /// Time exceeded: the fragments were not put together in time.
    FragmentReassemblyTimeExceeded,
    /// An echo reply whose checksum is not valid.
    InvalidChecksum,
    /// Anything else.
    Unknown,
}

/// Where an attempt stands.
#[derive(Clone, Copy, Debug, PartialEq, Eq, Structural)]
pub enum AttemptState {
    /// The request has not gone out.
    Idle,
    /// The request with this sequence number went out, and its reply is
    /// awaited until the deadline.
    AwaitingReply { sequence: u16, deadline: u128 },
    /// The reply came in time.
    Matched,
    /// The deadline passed without the reply.
    TimedOut,
}

/// What happened.
#[derive(Clone, Copy, Debug, PartialEq, Eq, Structural)]
pub enum AttemptEvent {
    /// The request could not be sent.
    SendFailed,
    /// The request with this sequence number was sent; its reply is to be
    /// awaited for `timeout`.
    Sent { sequence: u16, timeout: u128 },
    /// The clock was read: this much time has passed since the request was
    /// sent.
    Clock { elapsed: u128 },
    /// Nothing was received: the time to read ran out, or what came was no
    /// valid datagram.
    ReceiveFailed,
    /// A message of this kind was received.
    Received { reply: ReplyKind },
}

/// What is worth a warning while the reply is awaited.
#[derive(Clone, Copy, Debug, PartialEq, Eq, Structural)]
pub enum Notice {
    /// The reply to an earlier request, which had timed out, came in.
    LateReply { got: u16, awaited: u16 },
    /// A time exceeded message came in: the time to live ran out.
    TtlExceeded,
    /// A time exceeded message came in: fragments were not put together.
    FragmentReassemblyTimeExceeded,
    /// An echo reply with an invalid checksum came in.
    InvalidChecksum,
    /// A message of an unknown kind came in.
    UnknownPacket,
}

/// What the caller is to do next.
#[derive(Clone, Copy, Debug, PartialEq, Eq, Structural)]
pub enum AttemptAction {
    /// Nothing: the event does not belong to the state.
    Ignore,
    /// Report that sending failed, wait for `delay`, and send again.
    RetrySend { delay: u128 },
    /// Read the clock and hand in the time.
    ReadClock,
    /// Wait for a datagram, for `read_timeout` at most.
    Receive { read_timeout: u128 },
    /// Report the notice, then read the clock and hand in the time.
    Warn { notice: Notice },
    /// The attempt is over: the reply is there.
    Deliver,
    /// The attempt is over: report that the reply did not come in time.
    GiveUp,
}

/// A step of the machine: the state after an event, and what to do.
#[derive(Clone, Copy, Debug, PartialEq, Eq, Structural)]
pub struct Step {
    pub state: AttemptState,
    pub action: AttemptAction,
}

/// The kind of a classified message.
pub open spec fn kind_of(classified: Classified) -> ReplyKind {
    match classified {
        Classified::EchoReply(reply) => ReplyKind::Echo { sequence: reply.sequence },
        Classified::TtlExceeded => ReplyKind::TtlExceeded,
        Classified::FragmentReassemblyTimeExceeded => ReplyKind::FragmentReassemblyTimeExceeded,
        Classified::InvalidChecksum => ReplyKind::InvalidChecksum,
        Classified::Unknown => ReplyKind::Unknown,
    }
}

/// What a message of the given kind means while the reply with the sequence
/// number `awaited` is awaited: the reply itself ends the wait, everything
/// else is worth a notice.
pub open spec fn judge(reply: ReplyKind, awaited: u16) -> Option<Notice> {
    match reply {
        ReplyKind::Echo { sequence } => if sequence == awaited {
            None
        } else {
            Some(Notice::LateReply { got: sequence, awaited })
        },
        ReplyKind::TtlExceeded => Some(Notice::TtlExceeded),
        ReplyKind::FragmentReassemblyTimeExceeded => Some(Notice::FragmentReassemblyTimeExceeded),
        ReplyKind::InvalidChecksum => Some(Notice::InvalidChecksum),
        ReplyKind::Unknown => Some(Notice::UnknownPacket),
    }
}

/// Whether there is time left to wait: the wait goes on as long as fewer
/// whole milliseconds have passed than the deadline has.
pub open spec fn time_is_left(elapsed: u128, deadline: u128) -> bool {
    elapsed / NANOS_PER_MILLI < deadline / NANOS_PER_MILLI
}

/// The machine.
///
/// Before the request is out, a failure to send asks for another try after
/// `RETRY_DELAY`, and the sent request begins the wait. During the wait,
/// the clock decides between receiving, for the time that is left, and giving
/// up; a failure to receive leads back to the clock; a message ends the wait
/// if it is the awaited reply, and else leads back to the clock by way of a
/// notice. Nothing moves an attempt that is over, and an event that does not
/// belong to the state leaves it as it is.
pub open spec fn next(state: AttemptState, event: AttemptEvent) -> Step {
    match (state, event) {
        (AttemptState::Idle, AttemptEvent::SendFailed) => Step {
            state,
            action: AttemptAction::RetrySend { delay: RETRY_DELAY },
        },
        (AttemptState::Idle, AttemptEvent::Sent { sequence, timeout }) => Step {
            state: AttemptState::AwaitingReply { sequence, deadline: timeout },
            action: AttemptAction::ReadClock,
        },
        (AttemptState::AwaitingReply { sequence, deadline }, AttemptEvent::Clock { elapsed }) => {
            if time_is_left(elapsed, deadline) {
                Step {
                    state,
                    action: AttemptAction::Receive { read_timeout: (deadline - elapsed) as u128 },
                }
            } else {
                Step { state: AttemptState::TimedOut, action: AttemptAction::GiveUp }
            }
        },
        (AttemptState::AwaitingReply { .. }, AttemptEvent::ReceiveFailed) => Step {
            state,
            action: AttemptAction::ReadClock,
        },
        (AttemptState::AwaitingReply { sequence, deadline }, AttemptEvent::Received { reply }) => {
            match judge(reply, sequence) {
                None => Step { state: AttemptState::Matched, action: AttemptAction::Deliver },
                Some(notice) => Step { state, action: AttemptAction::Warn { notice } },
            }
        },
        _ => Step { state, action: AttemptAction::Ignore },
    }
}

/// Says of what kind a classified message is.
pub fn reply_kind(packet: &PossibleIcmpPackets) -> (kind: ReplyKind)
    ensures
        kind == kind_of(packet@),
{
    match packet {
        PossibleIcmpPackets::ICMPv4EchoPacket(reply) => ReplyKind::Echo {
            sequence: reply.sequence(),
        },
        PossibleIcmpPackets::ICMPv4TimeExceededPacketTtlExceeded => ReplyKind::TtlExceeded,
        PossibleIcmpPackets::ICMPv4TimeExceededPacketFragmentReassemblyTimeExceeded => {
            ReplyKind::FragmentReassemblyTimeExceeded
        },
        PossibleIcmpPackets::InvalidPacket => ReplyKind::InvalidChecksum,
        PossibleIcmpPackets::UnknownPacket => ReplyKind::Unknown,
    }
}

/// Says what a message of the given kind means while the reply with the
/// sequence number `awaited` is awaited.
pub fn judge_reply(reply: ReplyKind, awaited: u16) -> (notice: Option<Notice>)
    ensures
        notice == judge(reply, awaited),
{
    match reply {
        ReplyKind::Echo { sequence } => {
            if sequence == awaited {
                None
            } else {
                Some(Notice::LateReply { got: sequence, awaited })
            }
        },
        ReplyKind::TtlExceeded => Some(Notice::TtlExceeded),
        ReplyKind::FragmentReassemblyTimeExceeded => Some(Notice::FragmentReassemblyTimeExceeded),
        ReplyKind::InvalidChecksum => Some(Notice::InvalidChecksum),
        ReplyKind::Unknown => Some(Notice::UnknownPacket),
    }
}

/// Takes one step of the machine.
pub fn step(state: AttemptState, event: AttemptEvent) -> (taken: Step)
    ensures
        taken == next(state, event),
{
    match state {
        AttemptState::Idle => match event {
            AttemptEvent::SendFailed => Step {
                state,
                action: AttemptAction::RetrySend { delay: RETRY_DELAY },
            },
            AttemptEvent::Sent { sequence, timeout } => Step {
                state: AttemptState::AwaitingReply { sequence, deadline: timeout },
                action: AttemptAction::ReadClock,
            },
            _ => Step { state, action: AttemptAction::Ignore },
        },
        AttemptState::AwaitingReply { sequence, deadline } => match event {
            AttemptEvent::Clock { elapsed } => {
                if elapsed / NANOS_PER_MILLI < deadline / NANOS_PER_MILLI {
                    Step { state, action: AttemptAction::Receive { read_timeout: deadline - elapsed } }
                } else {
                    Step { state: AttemptState::TimedOut, action: AttemptAction::GiveUp }
                }
            },
            AttemptEvent::ReceiveFailed => Step { state, action: AttemptAction::ReadClock },
            AttemptEvent::Received { reply } => match judge_reply(reply, sequence) {
                None => Step { state: AttemptState::Matched, action: AttemptAction::Deliver },
                Some(notice) => Step { state, action: AttemptAction::Warn { notice } },
            },
            _ => Step { state, action: AttemptAction::Ignore },
        },
        _ => Step { state, action: AttemptAction::Ignore },
    }
}

/// An attempt that is over stays as it is, whatever happens.
pub proof fn lemma_finished_attempt_stays(state: AttemptState, event: AttemptEvent)
    requires
        state is Matched || state is TimedOut,
    ensures
        next(state, event) == (Step { state, action: AttemptAction::Ignore }),
{
}

/// An attempt is only ever matched by the echo reply that carries the
/// sequence number of its request: a late reply to another request, a time
/// exceeded message, an invalid or an unknown message never match it.
pub proof fn lemma_only_the_awaited_reply_matches(state: AttemptState, event: AttemptEvent)
    requires
        !(state is Matched),
    ensures
        next(state, event).state is Matched <==> (state is AwaitingReply && event
            == AttemptEvent::Received {
            reply: ReplyKind::Echo { sequence: state->AwaitingReply_sequence },
        }),
{
}

/// The time for which the machine lets the caller wait for a datagram is
/// more than nothing and never reaches past the deadline.
pub proof fn lemma_receive_stays_within_deadline(state: AttemptState, event: AttemptEvent)
    requires
        next(state, event).action is Receive,
    ensures
        state is AwaitingReply,
        event is Clock,
        0 < next(state, event).action->Receive_read_timeout,
        event->Clock_elapsed + next(state, event).action->Receive_read_timeout
            == state->AwaitingReply_deadline,
{
}

/// An attempt times out exactly when the clock is read during the wait and
/// shows that no time is left.
pub proof fn lemma_times_out_on_the_clock(state: AttemptState, event: AttemptEvent)
    requires
        !(state is TimedOut),
    ensures
        next(state, event).state is TimedOut <==> (state is AwaitingReply && event is Clock
            && !time_is_left(event->Clock_elapsed, state->AwaitingReply_deadline)),
{
}

} // verus!
