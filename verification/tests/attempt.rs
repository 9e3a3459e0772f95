use simple_ping::attempt::{
    judge_reply, reply_kind, step, AttemptAction, AttemptEvent, AttemptState, Notice, ReplyKind,
    Step,
};
use simple_ping::ping::icmp_packets::{ICMPv4EchoPacketStruct, ICMPv4GenericPacket};

const MILLI: u128 = 1_000_000;

fn waiting(sequence: u16, deadline: u128) -> AttemptState {
    AttemptState::AwaitingReply { sequence, deadline }
}

#[test]
fn failed_send_is_tried_again_after_a_second() {
    assert_eq!(
        step(AttemptState::Idle, AttemptEvent::SendFailed),
        Step {
            state: AttemptState::Idle,
            action: AttemptAction::RetrySend { delay: 1_000_000_000 }
        }
    );
}

#[test]
fn sent_request_begins_the_wait() {
    assert_eq!(
        step(AttemptState::Idle, AttemptEvent::Sent { sequence: 7, timeout: 1000 * MILLI }),
        Step { state: waiting(7, 1000 * MILLI), action: AttemptAction::ReadClock }
    );
}

#[test]
fn clock_within_the_deadline_lets_receive_for_the_rest() {
    assert_eq!(
        step(waiting(7, 1000 * MILLI), AttemptEvent::Clock { elapsed: 0 }),
        Step {
            state: waiting(7, 1000 * MILLI),
            action: AttemptAction::Receive { read_timeout: 1000 * MILLI }
        }
    );
    assert_eq!(
        step(waiting(7, 1000 * MILLI), AttemptEvent::Clock { elapsed: 250 * MILLI + 17 }),
        Step {
            state: waiting(7, 1000 * MILLI),
            action: AttemptAction::Receive { read_timeout: 750 * MILLI - 17 }
        }
    );
}

#[test]
fn clock_in_the_last_millisecond_ends_the_wait() {
    // 999.999999 ms have passed: fewer whole milliseconds than 1000.
    assert_eq!(
        step(waiting(7, 1000 * MILLI), AttemptEvent::Clock { elapsed: 1000 * MILLI - 1 }).action,
        AttemptAction::Receive { read_timeout: 1 }
    );
    assert_eq!(
        step(waiting(7, 1000 * MILLI), AttemptEvent::Clock { elapsed: 1000 * MILLI }),
        Step { state: AttemptState::TimedOut, action: AttemptAction::GiveUp }
    );
    assert_eq!(
        step(waiting(7, 1000 * MILLI), AttemptEvent::Clock { elapsed: 5000 * MILLI }),
        Step { state: AttemptState::TimedOut, action: AttemptAction::GiveUp }
    );
    // A deadline of 1000.5 ms counts as 1000 whole milliseconds.
    assert_eq!(
        step(waiting(7, 1000 * MILLI + 500_000), AttemptEvent::Clock { elapsed: 1000 * MILLI })
            .state,
        AttemptState::TimedOut
    );
    assert_eq!(
        step(waiting(7, 0), AttemptEvent::Clock { elapsed: 0 }).state,
        AttemptState::TimedOut
    );
}

#[test]
fn failed_receive_leads_back_to_the_clock() {
    assert_eq!(
        step(waiting(7, 1000 * MILLI), AttemptEvent::ReceiveFailed),
        Step { state: waiting(7, 1000 * MILLI), action: AttemptAction::ReadClock }
    );
}

#[test]
fn awaited_reply_ends_the_wait() {
    assert_eq!(
        step(
            waiting(7, 1000 * MILLI),
            AttemptEvent::Received { reply: ReplyKind::Echo { sequence: 7 } }
        ),
        Step { state: AttemptState::Matched, action: AttemptAction::Deliver }
    );
}

#[test]
fn late_reply_is_noticed_and_the_wait_goes_on() {
    assert_eq!(
        step(
            waiting(7, 1000 * MILLI),
            AttemptEvent::Received { reply: ReplyKind::Echo { sequence: 6 } }
        ),
        Step {
            state: waiting(7, 1000 * MILLI),
            action: AttemptAction::Warn { notice: Notice::LateReply { got: 6, awaited: 7 } }
        }
    );
}

#[test]
fn other_messages_are_noticed_and_the_wait_goes_on() {
    let cases = [
        (ReplyKind::TtlExceeded, Notice::TtlExceeded),
        (ReplyKind::FragmentReassemblyTimeExceeded, Notice::FragmentReassemblyTimeExceeded),
        (ReplyKind::InvalidChecksum, Notice::InvalidChecksum),
        (ReplyKind::Unknown, Notice::UnknownPacket),
    ];
    for (reply, notice) in cases {
        assert_eq!(judge_reply(reply, 7), Some(notice));
        assert_eq!(
            step(waiting(7, 1000 * MILLI), AttemptEvent::Received { reply }),
            Step { state: waiting(7, 1000 * MILLI), action: AttemptAction::Warn { notice } }
        );
    }
    assert_eq!(judge_reply(ReplyKind::Echo { sequence: 7 }, 7), None);
}

#[test]
fn finished_attempt_stays_as_it_is() {
    let events = [
        AttemptEvent::SendFailed,
        AttemptEvent::Sent { sequence: 1, timeout: MILLI },
        AttemptEvent::Clock { elapsed: 0 },
        AttemptEvent::ReceiveFailed,
        AttemptEvent::Received { reply: ReplyKind::Echo { sequence: 1 } },
    ];
    for state in [AttemptState::Matched, AttemptState::TimedOut] {
        for event in events {
            assert_eq!(step(state, event), Step { state, action: AttemptAction::Ignore });
        }
    }
}

#[test]
fn events_out_of_place_are_ignored() {
    for event in [
        AttemptEvent::Clock { elapsed: 0 },
        AttemptEvent::ReceiveFailed,
        AttemptEvent::Received { reply: ReplyKind::Unknown },
    ] {
        assert_eq!(
            step(AttemptState::Idle, event),
            Step { state: AttemptState::Idle, action: AttemptAction::Ignore }
        );
    }
    for event in [AttemptEvent::SendFailed, AttemptEvent::Sent { sequence: 1, timeout: MILLI }] {
        assert_eq!(
            step(waiting(7, MILLI), event),
            Step { state: waiting(7, MILLI), action: AttemptAction::Ignore }
        );
    }
}

#[test]
fn kind_of_a_classified_message() {
    let reply = ICMPv4EchoPacketStruct::new(0, 0, 1, 99, b"abc").unwrap();
    let kind = |bytes: &[u8]| reply_kind(&ICMPv4GenericPacket::from_bytes(bytes).unwrap().specialize());
    assert_eq!(kind(&reply.as_bytes()), ReplyKind::Echo { sequence: 99 });
    assert_eq!(kind(&[11, 0, 0, 0, 0, 0, 0, 0]), ReplyKind::TtlExceeded);
    assert_eq!(kind(&[11, 1, 0, 0, 0, 0, 0, 0]), ReplyKind::FragmentReassemblyTimeExceeded);
    assert_eq!(kind(&[0, 0, 0, 0, 0, 0, 0, 0]), ReplyKind::InvalidChecksum);
    assert_eq!(kind(&[3, 1, 0, 0, 0, 0, 0, 0]), ReplyKind::Unknown);
}

#[test]
fn one_attempt_from_send_to_match() {
    let mut state = AttemptState::Idle;
    let mut taken = step(state, AttemptEvent::SendFailed);
    assert_eq!(taken.action, AttemptAction::RetrySend { delay: 1_000_000_000 });
    state = taken.state;
    taken = step(state, AttemptEvent::Sent { sequence: 3, timeout: 100 * MILLI });
    assert_eq!(taken.action, AttemptAction::ReadClock);
    state = taken.state;
    taken = step(state, AttemptEvent::Clock { elapsed: 10 });
    assert_eq!(taken.action, AttemptAction::Receive { read_timeout: 100 * MILLI - 10 });
    state = taken.state;
    taken = step(state, AttemptEvent::Received { reply: ReplyKind::Echo { sequence: 2 } });
    assert_eq!(
        taken.action,
        AttemptAction::Warn { notice: Notice::LateReply { got: 2, awaited: 3 } }
    );
    state = taken.state;
    taken = step(state, AttemptEvent::Clock { elapsed: 40 * MILLI });
    assert_eq!(taken.action, AttemptAction::Receive { read_timeout: 60 * MILLI });
    state = taken.state;
    taken = step(state, AttemptEvent::Received { reply: ReplyKind::Echo { sequence: 3 } });
    assert_eq!(taken, Step { state: AttemptState::Matched, action: AttemptAction::Deliver });
}
